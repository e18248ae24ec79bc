//! The executable machine.

use fixedbitset::FixedBitSet;
use vstd::prelude::*;
use crate::bitset::bitset_bits;
use crate::debug::DebugController;
use crate::decoder::{decode, Instruction};
use crate::error::Chip8Error;
use crate::framebuffer::Framebuffer;
use crate::machine::{
    first_key, first_key_from, Machine, StepOutcome, StepStatus, FONT_SET, GLYPH_SIZE,
    LAST_FETCH_ADDRESS, MAX_PROGRAM_SIZE, MEMORY_SIZE, PROGRAM_START, STACK_SIZE,
    TALL_DISPLAY_ENTRY, TALL_DISPLAY_MARKER, TIMER_PERIOD,
};
use crate::rng::random_byte;

verus! {

/// The virtual machine: registers, memory, stack, timers, display and keys.
pub struct CPU {
    registers: [u8; 16],
    program_counter: u16,
    memory: [u8; 4096],
    stack: [u16; 16],
    stack_pointer: u8,
    sound_timer: u8,
    delay_timer: u8,
    index_register: u16,
    framebuffer: Framebuffer,
    keys: FixedBitSet,
    timer_phase: u8,
    booted: bool,
    debug: Option<DebugController>,
}

impl View for CPU {
    type V = Machine;

    closed spec fn view(&self) -> Machine {
        Machine {
            registers: self.registers@,
            program_counter: self.program_counter,
            memory: self.memory@,
            stack: self.stack@,
            stack_pointer: self.stack_pointer,
            sound_timer: self.sound_timer,
            delay_timer: self.delay_timer,
            index_register: self.index_register,
            screen: self.framebuffer@,
            keys: bitset_bits(self.keys),
            timer_phase: self.timer_phase,
            booted: self.booted,
            debug: match self.debug {
                Some(controller) => Some(controller@),
                None => None,
            },
        }
    }
}

impl CPU {
    /// The machine's invariant, that of its state.
    pub open spec fn wf(&self) -> bool {
        self@.wf()
    }

    /// A machine in its initial state, with `debug` attached if given.
    fn create(debug: Option<DebugController>) -> (cpu: CPU)
        ensures
            cpu.wf(),
            cpu@ == Machine::initial(
                match debug {
                    Some(controller) => Some(controller@),
                    None => None,
                },
            ),
    {
        let mut memory = [0u8; 4096];
        let mut idx: usize = 0;
        while idx < 80
            invariant
                idx <= 80,
                forall|a: int| 0 <= a < idx ==> memory@[a] == FONT_SET@[a],
                forall|a: int| idx <= a < 4096 ==> memory@[a] == 0,
            decreases 80 - idx,
        {
            memory[idx] = FONT_SET[idx];
            idx += 1;
        }
        let cpu = CPU {
            registers: [0; 16],
            program_counter: PROGRAM_START,
            memory,
            stack: [0; 16],
            stack_pointer: 0,
            sound_timer: 0,
            delay_timer: 0,
            index_register: 0,
            framebuffer: Framebuffer::new(64, 32),
            keys: FixedBitSet::with_capacity(16),
            timer_phase: 0,
            booted: false,
            debug,
        };
        cpu
    }

    /// A machine in its initial state, without a debug controller.
    pub fn new() -> (cpu: CPU)
        ensures
            cpu.wf(),
            cpu@ == Machine::initial(None),
    {
        CPU::create(None)
    }

    /// A machine in its initial state that `controller` gates.
    pub fn with_debug(controller: DebugController) -> (cpu: CPU)
        ensures
            cpu.wf(),
            cpu@ == Machine::initial(Some(controller@)),
    {
        CPU::create(Some(controller))
    }

    /// Loads a program image: the glyph table goes to address 0 and the
    /// image to the load address. An image that does not fit is refused and
    /// nothing is written.
    pub fn load(&mut self, program: &[u8]) -> (result: Result<(), Chip8Error>)
        requires
            old(self).wf(),
        ensures
            final(self).wf(),
            program@.len() <= 3584 ==> result == Ok::<(), Chip8Error>(()) && final(self)@ == old(
                self,
            )@.load(program@),
            program@.len() > 3584 ==> result == Err::<(), Chip8Error>(
                Chip8Error::ProgramTooLarge(program.len()),
            ) && final(self)@ == old(self)@,
    {
        let len = program.len();
        if len > MAX_PROGRAM_SIZE {
            return Err(Chip8Error::ProgramTooLarge(len));
        }
        let mut idx: usize = 0;
        while idx < 80
            invariant
                idx <= 80,
                self@ == (Machine { memory: self@.memory, ..old(self)@ }),
                forall|a: int| 0 <= a < idx ==> self@.memory[a] == FONT_SET@[a],
                forall|a: int| idx <= a < 4096 ==> self@.memory[a] == old(self)@.memory[a],
            decreases 80 - idx,
        {
            self.memory[idx] = FONT_SET[idx];
            idx += 1;
        }
        let mut idx: usize = 0;
        while idx < len
            invariant
                idx <= len,
                len == program@.len(),
                len <= 3584,
                self@ == (Machine { memory: self@.memory, ..old(self)@ }),
                forall|a: int| 0 <= a < 80 ==> self@.memory[a] == FONT_SET@[a],
                forall|a: int| 0x200 <= a < 0x200 + idx ==> self@.memory[a] == program@[a - 0x200],
                forall|a: int|
                    80 <= a < 4096 && !(0x200 <= a < 0x200 + idx) ==> self@.memory[a] == old(
                        self,
                    )@.memory[a],
            decreases len - idx,
        {
            self.memory[PROGRAM_START as usize + idx] = program[idx];
            idx += 1;
        }
        Ok(())
    }

    /// The sixteen registers.
    pub fn registers(&self) -> (registers: [u8; 16])
        ensures
            registers@ == self@.registers,
    {
        self.registers
    }

    /// Register `x`.
    pub fn register(&self, x: u8) -> (value: u8)
        requires
            x < 16,
        ensures
            value == self@.v(x),
    {
        self.registers[x as usize]
    }

    /// The program counter.
    pub fn program_counter(&self) -> (pc: u16)
        ensures
            pc == self@.program_counter,
    {
        self.program_counter
    }

    /// The index register.
    pub fn index_register(&self) -> (i: u16)
        ensures
            i == self@.index_register,
    {
        self.index_register
    }

    /// The number of return addresses on the stack.
    pub fn stack_pointer(&self) -> (sp: u8)
        ensures
            sp == self@.stack_pointer,
    {
        self.stack_pointer
    }

    /// The delay timer.
    pub fn delay_timer(&self) -> (t: u8)
        ensures
            t == self@.delay_timer,
    {
        self.delay_timer
    }

    /// The sound timer.
    pub fn sound_timer(&self) -> (t: u8)
        ensures
            t == self@.sound_timer,
    {
        self.sound_timer
    }

    /// The byte at `address`, if there is one.
    pub fn memory_at(&self, address: usize) -> (byte: Option<u8>)
        requires
            self.wf(),
        ensures
            address < 4096 ==> byte == Some(self@.memory[address as int]),
            address >= 4096 ==> byte is None,
    {
        if address < MEMORY_SIZE {
            Some(self.memory[address])
        } else {
            None
        }
    }

    /// The display.
    pub fn framebuffer(&self) -> (fb: &Framebuffer)
        requires
            self.wf(),
        ensures
            fb.wf(),
            fb@ == self@.screen,
    {
        &self.framebuffer
    }

    /// The display's pixels row by row, its width and its height.
    pub fn framebuffer_snapshot(&self) -> (snapshot: (Vec<bool>, usize, usize))
        requires
            self.wf(),
        ensures
            snapshot.0@ == self@.screen.pixels,
            snapshot.1 == self@.screen.width,
            snapshot.2 == self@.screen.height,
    {
        (
            self.framebuffer.snapshot(),
            self.framebuffer.width() as usize,
            self.framebuffer.height() as usize,
        )
    }

    /// Decrements each timer that is above zero.
    pub fn tick(&mut self)
        requires
            old(self).wf(),
        ensures
            final(self).wf(),
            final(self)@ == old(self)@.tick(),
    {
        if self.delay_timer > 0 {
            self.delay_timer = self.delay_timer - 1;
        }
        if self.sound_timer > 0 {
            self.sound_timer = self.sound_timer - 1;
        }
    }

    /// Moves the program counter on by one instruction.
    pub fn next_instruction(&mut self)
        requires
            old(self).wf(),
            old(self)@.program_counter <= 0xFFFD,
        ensures
            final(self).wf(),
            final(self)@ == old(self)@.next_instruction(),
    {
        self.program_counter = self.program_counter + 2;
    }

    /// Moves the program counter back by one instruction.
    pub fn undo_instruction(&mut self)
        requires
            old(self).wf(),
            old(self)@.program_counter >= 2,
        ensures
            final(self).wf(),
            final(self)@ == old(self)@.undo_instruction(),
    {
        self.program_counter = self.program_counter - 2;
    }

    /// Moves the program counter on by one instruction if `taken`.
    fn skip_if(&mut self, taken: bool)
        requires
            old(self).wf(),
            old(self)@.program_counter <= 0xFFFD,
        ensures
            final(self).wf(),
            final(self)@ == old(self)@.skip_if(taken),
    {
        if taken {
            self.next_instruction();
        }
    }

    /// `00E0`, `2030`: darkens every pixel.
    pub fn cls(&mut self)
        requires
            old(self).wf(),
        ensures
            final(self).wf(),
            final(self)@ == old(self)@.cls(),
    {
        self.framebuffer.clear();
    }

    /// `00EE`: pops the return address into the program counter. On an
    /// empty stack nothing changes and the error says so.
    pub fn ret(&mut self) -> (result: Result<(), Chip8Error>)
        requires
            old(self).wf(),
        ensures
            final(self).wf(),
            old(self)@.stack_pointer > 0 ==> result == Ok::<(), Chip8Error>(()) && final(self)@
                == old(self)@.ret(),
            old(self)@.stack_pointer == 0 ==> result == Err::<(), Chip8Error>(
                Chip8Error::StackUnderflow,
            ) && final(self)@ == old(self)@,
    {
        if self.stack_pointer == 0 {
            return Err(Chip8Error::StackUnderflow);
        }
        self.stack_pointer = self.stack_pointer - 1;
        self.program_counter = self.stack[self.stack_pointer as usize];
        Ok(())
    }

    /// `1nnn`: sets the program counter.
    pub fn jp_addr(&mut self, addr: u16)
        requires
            old(self).wf(),
        ensures
            final(self).wf(),
            final(self)@ == old(self)@.jp_addr(addr),
    {
        self.program_counter = addr;
    }

    /// `2nnn`: pushes the program counter and sets it. On a full stack
    /// nothing changes and the error says so.
    pub fn call_addr(&mut self, addr: u16) -> (result: Result<(), Chip8Error>)
        requires
            old(self).wf(),
        ensures
            final(self).wf(),
            old(self)@.stack_pointer < 16 ==> result == Ok::<(), Chip8Error>(()) && final(self)@
                == old(self)@.call_addr(addr),
            old(self)@.stack_pointer >= 16 ==> result == Err::<(), Chip8Error>(
                Chip8Error::StackOverflow,
            ) && final(self)@ == old(self)@,
    {
        if self.stack_pointer >= STACK_SIZE {
            return Err(Chip8Error::StackOverflow);
        }
        self.stack[self.stack_pointer as usize] = self.program_counter;
        self.stack_pointer = self.stack_pointer + 1;
        self.program_counter = addr;
        Ok(())
    }

    /// `3xnn`: skips the next instruction if `Vx == nn`.
    pub fn se_vx_nn(&mut self, x: u8, nn: u8)
        requires
            old(self).wf(),
            x < 16,
            old(self)@.program_counter <= 0xFFFD,
        ensures
            final(self).wf(),
            final(self)@ == old(self)@.se_vx_nn(x, nn),
    {
        let taken = self.registers[x as usize] == nn;
        self.skip_if(taken);
    }

    /// `4xnn`: skips the next instruction if `Vx != nn`.
    pub fn sne_vx_nn(&mut self, x: u8, nn: u8)
        requires
            old(self).wf(),
            x < 16,
            old(self)@.program_counter <= 0xFFFD,
        ensures
            final(self).wf(),
            final(self)@ == old(self)@.sne_vx_nn(x, nn),
    {
        let taken = self.registers[x as usize] != nn;
        self.skip_if(taken);
    }

    /// `5xy_`: skips the next instruction if `Vx == Vy`.
    pub fn se_vx_vy(&mut self, x: u8, y: u8)
        requires
            old(self).wf(),
            x < 16,
            y < 16,
            old(self)@.program_counter <= 0xFFFD,
        ensures
            final(self).wf(),
            final(self)@ == old(self)@.se_vx_vy(x, y),
    {
        let taken = self.registers[x as usize] == self.registers[y as usize];
        self.skip_if(taken);
    }

    /// `6xnn`: `Vx = nn`.
    pub fn ld_vx_nn(&mut self, x: u8, nn: u8)
        requires
            old(self).wf(),
            x < 16,
        ensures
            final(self).wf(),
            final(self)@ == old(self)@.ld_vx_nn(x, nn),
    {
        self.registers[x as usize] = nn;
    }

    /// `7xnn`: `Vx = (Vx + nn) mod 256`; the flag register is not touched.
    pub fn add_vx_nn(&mut self, x: u8, nn: u8)
        requires
            old(self).wf(),
            x < 16,
        ensures
            final(self).wf(),
            final(self)@ == old(self)@.add_vx_nn(x, nn),
    {
        let sum: u16 = self.registers[x as usize] as u16 + nn as u16;
        self.registers[x as usize] = (sum % 256) as u8;
    }

    /// `8xy0`: `Vx = Vy`.
    pub fn ld_vx_vy(&mut self, x: u8, y: u8)
        requires
            old(self).wf(),
            x < 16,
            y < 16,
        ensures
            final(self).wf(),
            final(self)@ == old(self)@.ld_vx_vy(x, y),
    {
        self.registers[x as usize] = self.registers[y as usize];
    }

    /// `8xy1`: `Vx = Vx | Vy`.
    pub fn or_vx_vy(&mut self, x: u8, y: u8)
        requires
            old(self).wf(),
            x < 16,
            y < 16,
        ensures
            final(self).wf(),
            final(self)@ == old(self)@.or_vx_vy(x, y),
    {
        self.registers[x as usize] = self.registers[x as usize] | self.registers[y as usize];
    }

    /// `8xy2`: `Vx = Vx & Vy`.
    pub fn and_vx_vy(&mut self, x: u8, y: u8)
        requires
            old(self).wf(),
            x < 16,
            y < 16,
        ensures
            final(self).wf(),
            final(self)@ == old(self)@.and_vx_vy(x, y),
    {
        self.registers[x as usize] = self.registers[x as usize] & self.registers[y as usize];
    }

    /// `8xy3`: `Vx = Vx ^ Vy`.
    pub fn xor_vx_vy(&mut self, x: u8, y: u8)
        requires
            old(self).wf(),
            x < 16,
            y < 16,
        ensures
            final(self).wf(),
            final(self)@ == old(self)@.xor_vx_vy(x, y),
    {
        self.registers[x as usize] = self.registers[x as usize] ^ self.registers[y as usize];
    }

    /// `8xy4`: `Vx = (Vx + Vy) mod 256`; the flag register is 1 if the sum
    /// exceeds 255, else 0.
    pub fn add_vx_vy(&mut self, x: u8, y: u8)
        requires
            old(self).wf(),
            x < 16,
            y < 16,
        ensures
            final(self).wf(),
            final(self)@ == old(self)@.add_vx_vy(x, y),
    {
        let sum: u16 = self.registers[x as usize] as u16 + self.registers[y as usize] as u16;
        let is_overflow = sum > 255;
        let wrapped = (sum % 256) as u8;
        self.registers[0xF] = if is_overflow {
            1
        } else {
            0
        };
        self.registers[x as usize] = wrapped;
    }

    /// `8xy5`: `Vx = (Vx - Vy) mod 256`; the flag register is 1 if
    /// `Vx >= Vy`, else 0.
    pub fn sub_vx_vy(&mut self, x: u8, y: u8)
        requires
            old(self).wf(),
            x < 16,
            y < 16,
        ensures
            final(self).wf(),
            final(self)@ == old(self)@.sub_vx_vy(x, y),
    {
        let minuend = self.registers[x as usize];
        let subtrahend = self.registers[y as usize];
        let is_overflow = minuend < subtrahend;
        let wrapped = ((256 + minuend as u16 - subtrahend as u16) % 256) as u8;
        self.registers[0xF] = if is_overflow {
            0
        } else {
            1
        };
        self.registers[x as usize] = wrapped;
    }

    /// `8x_6`: the flag register receives bit 0 of `Vx`, then `Vx = Vx >> 1`.
    pub fn shr_vx_vy(&mut self, x: u8)
        requires
            old(self).wf(),
            x < 16,
        ensures
            final(self).wf(),
            final(self)@ == old(self)@.shr_vx_vy(x),
    {
        self.registers[0xF] = self.registers[x as usize] & 0x1;
        self.registers[x as usize] = self.registers[x as usize] >> 1;
    }

    /// `8xy7`: `Vx = (Vy - Vx) mod 256`; the flag register is 1 if
    /// `Vy >= Vx`, else 0.
    pub fn subn_vx_vy(&mut self, x: u8, y: u8)
        requires
            old(self).wf(),
            x < 16,
            y < 16,
        ensures
            final(self).wf(),
            final(self)@ == old(self)@.subn_vx_vy(x, y),
    {
        let minuend = self.registers[y as usize];
        let subtrahend = self.registers[x as usize];
        let is_overflow = minuend < subtrahend;
        let wrapped = ((256 + minuend as u16 - subtrahend as u16) % 256) as u8;
        self.registers[0xF] = if is_overflow {
            0
        } else {
            1
        };
        self.registers[x as usize] = wrapped;
    }

    /// `8x_E`: the flag register receives bit 7 of `Vx`, then
    /// `Vx = (Vx << 1) mod 256`.
    pub fn shl_vx_vy(&mut self, x: u8)
        requires
            old(self).wf(),
            x < 16,
        ensures
            final(self).wf(),
            final(self)@ == old(self)@.shl_vx_vy(x),
    {
        self.registers[0xF] = self.registers[x as usize] >> 7;
        self.registers[x as usize] = self.registers[x as usize] << 1;
    }

    /// `9xy_`: skips the next instruction if `Vx != Vy`.
    pub fn sne_vx_vy(&mut self, x: u8, y: u8)
        requires
            old(self).wf(),
            x < 16,
            y < 16,
            old(self)@.program_counter <= 0xFFFD,
        ensures
            final(self).wf(),
            final(self)@ == old(self)@.sne_vx_vy(x, y),
    {
        let taken = self.registers[x as usize] != self.registers[y as usize];
        self.skip_if(taken);
    }

    /// `Annn`: `I = nnn`.
    pub fn ld_i_addr(&mut self, nnn: u16)
        requires
            old(self).wf(),
        ensures
            final(self).wf(),
            final(self)@ == old(self)@.ld_i_addr(nnn),
    {
        self.index_register = nnn;
    }

    /// `Bnnn`: sets the program counter to `nnn + V0`.
    pub fn jp_v0_addr(&mut self, nnn: u16)
        requires
            old(self).wf(),
            nnn < 4096,
        ensures
            final(self).wf(),
            final(self)@ == old(self)@.jp_v0_addr(nnn),
    {
        self.program_counter = nnn + self.registers[0] as u16;
    }

    /// `Cxnn` once the random byte is drawn: `Vx = random & nn`.
    pub fn rnd_vx_nn_with(&mut self, x: u8, nn: u8, random: u8)
        requires
            old(self).wf(),
            x < 16,
        ensures
            final(self).wf(),
            final(self)@ == old(self)@.rnd_vx_nn(x, nn, random),
    {
        self.registers[x as usize] = random & nn;
    }

    /// `Cxnn`: draws a random byte and sets `Vx` to it, masked by `nn`.
    /// Whatever byte is drawn, the state is the one that
    /// `rnd_vx_nn_with` gives for it.
    pub fn rnd_vx_nn(&mut self, x: u8, nn: u8)
        requires
            old(self).wf(),
            x < 16,
        ensures
            final(self).wf(),
            exists|random: u8| final(self)@ == old(self)@.rnd_vx_nn(x, nn, random),
    {
        let random = random_byte();
        self.rnd_vx_nn_with(x, nn, random);
    }

    /// `Dxyn`: resets the flag register, then XORs the `n` sprite lines at
    /// `I` onto the display at column `Vx`, row `Vy`, wrapping at the edges;
    /// the flag register becomes 1 as soon as a lit pixel is hit. If the
    /// sprite reaches past the end of memory, nothing changes and the error
    /// says so.
    pub fn drw_vx_vy_n(&mut self, x: u8, y: u8, n: u8) -> (result: Result<(), Chip8Error>)
        requires
            old(self).wf(),
            x < 16,
            y < 16,
            n < 16,
        ensures
            final(self).wf(),
            !(n > 0 && old(self)@.index_register + n > 4096) ==> result == Ok::<(), Chip8Error>(())
                && final(self)@ == old(self)@.drw_vx_vy_n(x, y, n),
            n > 0 && old(self)@.index_register + n > 4096 ==> result == Err::<(), Chip8Error>(
                Chip8Error::IndexOutOfBounds(old(self)@.index_register),
            ) && final(self)@ == old(self)@,
    {
        let base = self.index_register as usize;
        if n > 0 && base + n as usize > MEMORY_SIZE {
            return Err(Chip8Error::IndexOutOfBounds(self.index_register));
        }
        // If no pixels are erased, the flag register stays 0
        self.registers[0xF] = 0;
        let mut i: u8 = 0;
        while i < n
            invariant
                i <= n,
                n < 16,
                x < 16,
                y < 16,
                self.wf(),
                base == old(self)@.index_register,
                n > 0 ==> base + n <= 4096,
                self@ == (Machine { registers: self@.registers, screen: self@.screen, ..old(self)@ }),
                self@ == old(self)@.draw_prefix(x, y, 8 * i as nat),
            decreases n - i,
        {
            // Each byte is a line of eight pixels
            let line = self.memory[base + i as usize];
            let mut position: u8 = 0;
            while position < 8
                invariant
                    position <= 8,
                    i < n,
                    n < 16,
                    x < 16,
                    y < 16,
                    self.wf(),
                    base == old(self)@.index_register,
                    base + n <= 4096,
                    line == old(self)@.memory[base + i],
                    self@ == (Machine {
                        registers: self@.registers,
                        screen: self@.screen,
                        ..old(self)@
                    }),
                    self@ == old(self)@.draw_prefix(x, y, (8 * i + position) as nat),
                decreases 8 - position,
            {
                let value = line >> (7 - position) & 0x01;
                if value == 1 {
                    // wrap around width and height
                    let px = (self.registers[x as usize] as usize + position as usize)
                        % self.framebuffer.width() as usize;
                    let py = (self.registers[y as usize] as usize + i as usize)
                        % self.framebuffer.height() as usize;
                    if self.framebuffer.draw_pixel(px, py, value) {
                        self.registers[0xF] = 1;
                    }
                }
                position += 1;
            }
            i += 1;
        }
        Ok(())
    }

    /// Replaces the state of the sixteen keys.
    pub fn set_keys(&mut self, keys: &[bool; 16])
        requires
            old(self).wf(),
        ensures
            final(self).wf(),
            final(self)@ == (Machine { keys: keys@, ..old(self)@ }),
    {
        let mut idx: usize = 0;
        while idx < 16
            invariant
                idx <= 16,
                self.wf(),
                self@ == (Machine { keys: self@.keys, ..old(self)@ }),
                forall|k: int| 0 <= k < idx ==> self@.keys[k] == keys@[k],
            decreases 16 - idx,
        {
            self.keys.set(idx, keys[idx]);
            idx += 1;
        }
    }

    /// `Ex9E`: skips the next instruction if key `Vx` is down.
    pub fn skp_vx(&mut self, x: u8)
        requires
            old(self).wf(),
            x < 16,
            old(self)@.program_counter <= 0xFFFD,
        ensures
            final(self).wf(),
            final(self)@ == old(self)@.skp_vx(x),
    {
        let taken = self.keys.contains(self.registers[x as usize] as usize);
        self.skip_if(taken);
    }

    /// `ExA1`: skips the next instruction if key `Vx` is up.
    pub fn sknp_vx(&mut self, x: u8)
        requires
            old(self).wf(),
            x < 16,
            old(self)@.program_counter <= 0xFFFD,
        ensures
            final(self).wf(),
            final(self)@ == old(self)@.sknp_vx(x),
    {
        let taken = !self.keys.contains(self.registers[x as usize] as usize);
        self.skip_if(taken);
    }

    /// `Fx07`: `Vx = delay timer`.
    pub fn ld_vx_dt(&mut self, x: u8)
        requires
            old(self).wf(),
            x < 16,
        ensures
            final(self).wf(),
            final(self)@ == old(self)@.ld_vx_dt(x),
    {
        self.registers[x as usize] = self.delay_timer;
    }

    /// `Fx0A`: with no key down, moves the program counter back onto this
    /// instruction, which so runs again next cycle; else sets `Vx` to the
    /// lowest key that is down.
    pub fn ld_vx_n(&mut self, x: u8)
        requires
            old(self).wf(),
            x < 16,
            old(self)@.program_counter >= 2,
        ensures
            final(self).wf(),
            final(self)@ == old(self)@.ld_vx_n(x),
    {
        self.undo_instruction();
        let mut idx: u8 = 0;
        while idx < 16
            invariant
                idx <= 16,
                x < 16,
                self.wf(),
                old(self)@.program_counter >= 2,
                self@ == old(self)@.undo_instruction(),
                first_key(self@.keys) == first_key_from(self@.keys, idx as int),
            decreases 16 - idx,
        {
            let key = self.keys.contains(idx as usize);
            if key {
                self.registers[x as usize] = idx;
                self.next_instruction();
                return ;
            }
            idx += 1;
        }
    }

    /// `Fx15`: `delay timer = Vx`.
    pub fn ld_dt_vx(&mut self, x: u8)
        requires
            old(self).wf(),
            x < 16,
        ensures
            final(self).wf(),
            final(self)@ == old(self)@.ld_dt_vx(x),
    {
        self.delay_timer = self.registers[x as usize];
    }

    /// `Fx18`: `sound timer = Vx`. The result says whether a tone is to be
    /// played: it is if the timer is now above zero.
    pub fn ld_st_vx(&mut self, x: u8) -> (tone_requested: bool)
        requires
            old(self).wf(),
            x < 16,
        ensures
            final(self).wf(),
            final(self)@ == old(self)@.ld_st_vx(x),
            tone_requested == (old(self)@.v(x) > 0),
    {
        self.sound_timer = self.registers[x as usize];
        self.sound_timer > 0
    }

    /// `Fx1E`: `I = I + Vx`. If the sum does not fit the index register,
    /// nothing changes and the error says so.
    pub fn add_i_vx(&mut self, x: u8) -> (result: Result<(), Chip8Error>)
        requires
            old(self).wf(),
            x < 16,
        ensures
            final(self).wf(),
            old(self)@.index_register + old(self)@.v(x) <= 0xFFFF ==> result == Ok::<
                (),
                Chip8Error,
            >(()) && final(self)@ == old(self)@.add_i_vx(x),
            old(self)@.index_register + old(self)@.v(x) > 0xFFFF ==> result == Err::<
                (),
                Chip8Error,
            >(Chip8Error::IndexOutOfBounds(old(self)@.index_register)) && final(self)@ == old(
                self,
            )@,
    {
        let sum: u32 = self.index_register as u32 + self.registers[x as usize] as u32;
        if sum > 0xFFFF {
            return Err(Chip8Error::IndexOutOfBounds(self.index_register));
        }
        self.index_register = sum as u16;
        Ok(())
    }

    /// `Fx29`: `I = Vx * 5`, where the glyph for `Vx` starts.
    pub fn ld_f_vx(&mut self, x: u8)
        requires
            old(self).wf(),
            x < 16,
        ensures
            final(self).wf(),
            final(self)@ == old(self)@.ld_f_vx(x),
    {
        self.index_register = self.registers[x as usize] as u16 * GLYPH_SIZE;
    }

    /// `Fx33`: stores the hundreds, tens and ones digit of `Vx` at `I`,
    /// `I+1` and `I+2`. If they do not all lie in memory, nothing changes
    /// and the error says so.
    pub fn ld_b_vx(&mut self, x: u8) -> (result: Result<(), Chip8Error>)
        requires
            old(self).wf(),
            x < 16,
        ensures
            final(self).wf(),
            old(self)@.index_register + 2 <= 4095 ==> result == Ok::<(), Chip8Error>(())
                && final(self)@ == old(self)@.ld_b_vx(x),
            old(self)@.index_register + 2 > 4095 ==> result == Err::<(), Chip8Error>(
                Chip8Error::IndexOutOfBounds(old(self)@.index_register),
            ) && final(self)@ == old(self)@,
    {
        let base = self.index_register as usize;
        if base + 2 >= MEMORY_SIZE {
            return Err(Chip8Error::IndexOutOfBounds(self.index_register));
        }
        let value = self.registers[x as usize];
        self.memory[base] = value / 100;
        self.memory[base + 1] = (value / 10) % 10;
        self.memory[base + 2] = value % 10;
        Ok(())
    }

    /// `Fx55`: stores `V0..=Vx` at `I..=I+x`. If they do not all lie in
    /// memory, nothing changes and the error says so.
    pub fn ld_i_vx(&mut self, x: u8) -> (result: Result<(), Chip8Error>)
        requires
            old(self).wf(),
            x < 16,
        ensures
            final(self).wf(),
            old(self)@.index_register + x <= 4095 ==> result == Ok::<(), Chip8Error>(())
                && final(self)@ == old(self)@.ld_i_vx(x),
            old(self)@.index_register + x > 4095 ==> result == Err::<(), Chip8Error>(
                Chip8Error::IndexOutOfBounds(old(self)@.index_register),
            ) && final(self)@ == old(self)@,
    {
        let base = self.index_register as usize;
        if base + x as usize >= MEMORY_SIZE {
            return Err(Chip8Error::IndexOutOfBounds(self.index_register));
        }
        let mut r: usize = 0;
        while r <= x as usize
            invariant
                r <= x + 1,
                x < 16,
                base == old(self)@.index_register,
                base + x <= 4095,
                self.wf(),
                self@ == (Machine { memory: self@.memory, ..old(self)@ }),
                forall|a: int|
                    base <= a < base + r ==> self@.memory[a] == old(self)@.registers[a - base],
                forall|a: int|
                    0 <= a < 4096 && !(base <= a < base + r) ==> self@.memory[a] == old(
                        self,
                    )@.memory[a],
            decreases x + 1 - r,
        {
            self.memory[base + r] = self.registers[r];
            r += 1;
        }
        Ok(())
    }

    /// `Fx65`: loads `V0..=Vx` from `I..=I+x`. If they do not all lie in
    /// memory, nothing changes and the error says so.
    pub fn ld_vx_i(&mut self, x: u8) -> (result: Result<(), Chip8Error>)
        requires
            old(self).wf(),
            x < 16,
        ensures
            final(self).wf(),
            old(self)@.index_register + x <= 4095 ==> result == Ok::<(), Chip8Error>(())
                && final(self)@ == old(self)@.ld_vx_i(x),
            old(self)@.index_register + x > 4095 ==> result == Err::<(), Chip8Error>(
                Chip8Error::IndexOutOfBounds(old(self)@.index_register),
            ) && final(self)@ == old(self)@,
    {
        let base = self.index_register as usize;
        if base + x as usize >= MEMORY_SIZE {
            return Err(Chip8Error::IndexOutOfBounds(self.index_register));
        }
        let mut r: usize = 0;
        while r <= x as usize
            invariant
                r <= x + 1,
                x < 16,
                base == old(self)@.index_register,
                base + x <= 4095,
                self.wf(),
                self@ == (Machine { registers: self@.registers, ..old(self)@ }),
                forall|k: int| 0 <= k < r ==> self@.registers[k] == old(self)@.memory[base + k],
                forall|k: int| r <= k < 16 ==> self@.registers[k] == old(self)@.registers[k],
            decreases x + 1 - r,
        {
            self.registers[r] = self.memory[base + r];
            r += 1;
        }
        Ok(())
    }

    /// Executes `instruction`, the program counter having moved past it.
    /// `random` is the byte that "random" draws. A fault changes nothing.
    pub fn execute(&mut self, instruction: Instruction, random: u8) -> (outcome: StepOutcome)
        requires
            old(self).wf(),
            instruction.wf(),
            2 <= old(self)@.program_counter <= 0xFFFD,
        ensures
            final(self).wf(),
            (final(self)@, outcome) == old(self)@.execute(instruction, random),
    {
        let mut tone_requested = false;
        let mut display_dirty = false;
        let mut status = StepStatus::Continued;
        let result: Result<(), Chip8Error> = match instruction {
            Instruction::Halt => {
                status = StepStatus::Halted;
                Ok(())
            },
            Instruction::ClearDisplay => {
                self.cls();
                display_dirty = true;
                Ok(())
            },
            Instruction::Return => self.ret(),
            Instruction::Jump { nnn } => {
                self.jp_addr(nnn);
                Ok(())
            },
            Instruction::Call { nnn } => self.call_addr(nnn),
            Instruction::SkipEqualImmediate { x, kk } => {
                self.se_vx_nn(x, kk);
                Ok(())
            },
            Instruction::SkipNotEqualImmediate { x, kk } => {
                self.sne_vx_nn(x, kk);
                Ok(())
            },
            Instruction::SkipEqualRegister { x, y } => {
                self.se_vx_vy(x, y);
                Ok(())
            },
            Instruction::LoadImmediate { x, kk } => {
                self.ld_vx_nn(x, kk);
                Ok(())
            },
            Instruction::AddImmediate { x, kk } => {
                self.add_vx_nn(x, kk);
                Ok(())
            },
            Instruction::LoadRegister { x, y } => {
                self.ld_vx_vy(x, y);
                Ok(())
            },
            Instruction::Or { x, y } => {
                self.or_vx_vy(x, y);
                Ok(())
            },
            Instruction::And { x, y } => {
                self.and_vx_vy(x, y);
                Ok(())
            },
            Instruction::Xor { x, y } => {
                self.xor_vx_vy(x, y);
                Ok(())
            },
            Instruction::AddRegister { x, y } => {
                self.add_vx_vy(x, y);
                Ok(())
            },
            Instruction::Subtract { x, y } => {
                self.sub_vx_vy(x, y);
                Ok(())
            },
            Instruction::ShiftRight { x } => {
                self.shr_vx_vy(x);
                Ok(())
            },
            Instruction::SubtractReversed { x, y } => {
                self.subn_vx_vy(x, y);
                Ok(())
            },
            Instruction::ShiftLeft { x } => {
                self.shl_vx_vy(x);
                Ok(())
            },
            Instruction::SkipNotEqualRegister { x, y } => {
                self.sne_vx_vy(x, y);
                Ok(())
            },
            Instruction::LoadIndex { nnn } => {
                self.ld_i_addr(nnn);
                Ok(())
            },
            Instruction::JumpOffset { nnn } => {
                self.jp_v0_addr(nnn);
                Ok(())
            },
            Instruction::Random { x, kk } => {
                self.rnd_vx_nn_with(x, kk, random);
                Ok(())
            },
            Instruction::Draw { x, y, n } => {
                display_dirty = true;
                self.drw_vx_vy_n(x, y, n)
            },
            Instruction::SkipKeyDown { x } => {
                self.skp_vx(x);
                Ok(())
            },
            Instruction::SkipKeyUp { x } => {
                self.sknp_vx(x);
                Ok(())
            },
            Instruction::ReadDelay { x } => {
                self.ld_vx_dt(x);
                Ok(())
            },
            Instruction::WaitKey { x } => {
                self.ld_vx_n(x);
                Ok(())
            },
            Instruction::SetDelay { x } => {
                self.ld_dt_vx(x);
                Ok(())
            },
            Instruction::SetSound { x } => {
                tone_requested = self.ld_st_vx(x);
                Ok(())
            },
            Instruction::AddIndex { x } => self.add_i_vx(x),
            Instruction::LoadGlyph { x } => {
                self.ld_f_vx(x);
                Ok(())
            },
            Instruction::StoreDecimal { x } => self.ld_b_vx(x),
            Instruction::StoreRegisters { x } => self.ld_i_vx(x),
            Instruction::LoadRegisters { x } => self.ld_vx_i(x),
            Instruction::Illegal { opcode } => Err(Chip8Error::IllegalInstruction(opcode)),
        };
        match result {
            Ok(()) => StepOutcome { status, tone_requested, display_dirty },
            Err(error) => StepOutcome {
                status: StepStatus::Faulted(error),
                tone_requested: false,
                display_dirty: false,
            },
        }
    }

    /// Dispatches `word` as if it had been fetched at the program counter.
    /// A counter that leaves no room for a fetch is a fault and nothing
    /// changes. Else, as the very first instruction at the load address,
    /// the word `1260` replaces the display by a dark one of 64 by 64 and
    /// counts as `12C0`; the counter moves past the instruction, and the
    /// instruction is executed. A fault in it leaves the counter moved.
    pub fn dispatch(&mut self, word: u16, random: u8) -> (outcome: StepOutcome)
        requires
            old(self).wf(),
        ensures
            final(self).wf(),
            (final(self)@, outcome) == old(self)@.dispatch(word, random),
    {
        if self.program_counter > LAST_FETCH_ADDRESS {
            return StepOutcome {
                status: StepStatus::Faulted(
                    Chip8Error::ProgramCounterOutOfBounds(self.program_counter),
                ),
                tone_requested: false,
                display_dirty: false,
            };
        }
        let mut opcode = word;
        let mut tall = false;
        if !self.booted && self.program_counter == PROGRAM_START && opcode == TALL_DISPLAY_MARKER {
            // Init 64x64 hires mode
            opcode = TALL_DISPLAY_ENTRY;
            self.framebuffer = Framebuffer::new(64, 64);
            tall = true;
        }
        self.booted = true;
        let instruction = decode(opcode);
        self.next_instruction();
        let outcome = self.execute(instruction, random);
        StepOutcome {
            status: outcome.status,
            tone_requested: outcome.tone_requested,
            display_dirty: outcome.display_dirty || tall,
        }
    }

    /// Counts a cycle: on every fifth one the timers are decremented.
    fn clock(&mut self)
        requires
            old(self).wf(),
        ensures
            final(self).wf(),
            final(self)@ == old(self)@.clock(),
    {
        self.timer_phase = self.timer_phase + 1;
        if self.timer_phase % TIMER_PERIOD == 0 {
            self.timer_phase = 0;
            self.tick();
        }
    }

    /// The word at the program counter, the first byte being the more
    /// significant.
    fn fetch(&self) -> (word: u16)
        requires
            self.wf(),
            self@.program_counter <= 4094,
        ensures
            word == self@.fetch(),
    {
        let op_byte1 = self.memory[self.program_counter as usize] as u16;
        let op_byte2 = self.memory[self.program_counter as usize + 1] as u16;
        assert(op_byte1 << 8 | op_byte2 == 256 * op_byte1 + op_byte2) by (bit_vector)
            requires
                op_byte1 < 256,
                op_byte2 < 256,
        ;
        op_byte1 << 8 | op_byte2
    }

    /// The word that the next cycle fetches, if the program counter leaves
    /// room for one.
    pub fn next_word(&self) -> (word: Option<u16>)
        requires
            self.wf(),
        ensures
            self@.program_counter <= 4094 ==> word == Some(self@.fetch()),
            self@.program_counter > 4094 ==> word is None,
    {
        if self.program_counter <= LAST_FETCH_ADDRESS {
            Some(self.fetch())
        } else {
            None
        }
    }

    /// One cycle: counts it, samples the keys, fetches a word where the
    /// program counter allows it, and dispatches it.
    fn cycle(&mut self, keys: &[bool; 16], random: u8) -> (outcome: StepOutcome)
        requires
            old(self).wf(),
        ensures
            final(self).wf(),
            (final(self)@, outcome) == old(self)@.cycle(keys@, random),
    {
        self.clock();
        self.set_keys(keys);
        let word = match self.next_word() {
            Some(word) => word,
            None => 0,
        };
        self.dispatch(word, random)
    }

    /// One step, with `random` for the byte that a "random" instruction
    /// draws. Without a debug controller a step is a cycle. With one, a
    /// step is a cycle unless the controller is halted, when nothing
    /// changes and the status is `Paused`; a fault halts the controller for
    /// good, and a pending single step is paid.
    pub fn step_with(&mut self, keys: &[bool; 16], random: u8) -> (outcome: StepOutcome)
        requires
            old(self).wf(),
        ensures
            final(self).wf(),
            (final(self)@, outcome) == old(self)@.step(keys@, random),
    {
        match self.debug {
            None => self.cycle(keys, random),
            Some(mut controller) => {
                if controller.executes() {
                    let outcome = self.cycle(keys, random);
                    match outcome.status {
                        StepStatus::Faulted(_) => controller.fault(),
                        _ => controller.cycle_done(),
                    }
                    self.debug = Some(controller);
                    outcome
                } else {
                    StepOutcome {
                        status: StepStatus::Paused,
                        tone_requested: false,
                        display_dirty: false,
                    }
                }
            },
        }
    }

    /// Whether the next step executes a "random" instruction.
    fn draws_random(&self) -> (draws: bool)
        requires
            self.wf(),
        ensures
            draws == self@.draws_random(),
    {
        let executes = match self.debug {
            None => true,
            Some(controller) => controller.executes(),
        };
        match self.next_word() {
            Some(word) if executes => match decode(word) {
                Instruction::Random { .. } => true,
                _ => false,
            },
            _ => false,
        }
    }

    /// One step. A random byte is drawn only if the step executes a
    /// "random" instruction: whatever byte it is, the state and the outcome
    /// are those that `step_with` gives for it. A step that draws none is
    /// the step that `step_with` gives for any byte, zero for one.
    pub fn step(&mut self, keys: &[bool; 16]) -> (outcome: StepOutcome)
        requires
            old(self).wf(),
        ensures
            final(self).wf(),
            exists|random: u8| (final(self)@, outcome) == old(self)@.step(keys@, random),
            !old(self)@.draws_random() ==> (final(self)@, outcome) == old(self)@.step(keys@, 0),
    {
        let random = if self.draws_random() {
            random_byte()
        } else {
            0
        };
        self.step_with(keys, random)
    }

    /// Runs steps with the same keys until one does not end in `Continued`
    /// or `max_cycles` steps are done. The outcome has the status of the
    /// last step and says whether any step asked for a tone or touched the
    /// display. A fault is an error if no debug controller is attached;
    /// with one it is part of the outcome, the controller having halted.
    /// Whatever random bytes are drawn, the state and the outcome are those
    /// of the run that draws them.
    pub fn run(&mut self, keys: &[bool; 16], max_cycles: usize) -> (result: Result<
        StepOutcome,
        Chip8Error,
    >)
        requires
            old(self).wf(),
        ensures
            final(self).wf(),
            exists|randoms: Seq<u8>|
                {
                    let (after, outcome) = #[trigger] old(self)@.run(keys@, randoms);
                    &&& randoms.len() <= max_cycles
                    &&& randoms.len() < max_cycles ==> !(outcome.status is Continued)
                    &&& final(self)@ == after
                    &&& result == match outcome.status {
                        StepStatus::Faulted(error) if old(self)@.debug is None => Err::<
                            StepOutcome,
                            Chip8Error,
                        >(error),
                        _ => Ok::<StepOutcome, Chip8Error>(outcome),
                    }
                },
    {
        let detached = self.debug.is_none();
        let mut tone_requested = false;
        let mut display_dirty = false;
        let ghost mut randoms: Seq<u8> = Seq::empty();
        let mut cycles: usize = 0;
        while cycles < max_cycles
            invariant
                cycles <= max_cycles,
                self.wf(),
                detached == (old(self)@.debug is None),
                randoms.len() == cycles,
                old(self)@.run(keys@, randoms) == (
                    self@,
                    StepOutcome { status: StepStatus::Continued, tone_requested, display_dirty },
                ),
            decreases max_cycles - cycles,
        {
            let ghost before = self@;
            let outcome = self.step(keys);
            tone_requested = tone_requested || outcome.tone_requested;
            display_dirty = display_dirty || outcome.display_dirty;
            cycles += 1;
            let total = StepOutcome { status: outcome.status, tone_requested, display_dirty };
            proof {
                let random = choose|random: u8| (self@, outcome) == before.step(keys@, random);
                let longer = randoms.push(random);
                assert(longer.drop_last() =~= randoms);
                assert(old(self)@.run(keys@, longer) == (self@, total));
                randoms = longer;
            }
            match outcome.status {
                StepStatus::Continued => {},
                StepStatus::Faulted(error) => {
                    if detached {
                        return Err(error);
                    } else {
                        return Ok(total);
                    }
                },
                _ => {
                    return Ok(total);
                },
            }
        }
        Ok(StepOutcome { status: StepStatus::Continued, tone_requested, display_dirty })
    }

    /// The host's "pause": a running machine halts. Without a debug
    /// controller nothing changes.
    pub fn pause(&mut self)
        requires
            old(self).wf(),
        ensures
            final(self).wf(),
            final(self)@ == (Machine {
                debug: match old(self)@.debug {
                    Some(c) => Some(c.pause()),
                    None => None,
                },
                ..old(self)@
            }),
    {
        match self.debug {
            Some(mut controller) => {
                controller.pause();
                self.debug = Some(controller);
            },
            None => {},
        }
    }

    /// The host's "resume": a halted machine runs again, unless it has
    /// faulted. Without a debug controller nothing changes.
    pub fn resume(&mut self)
        requires
            old(self).wf(),
        ensures
            final(self).wf(),
            final(self)@ == (Machine {
                debug: match old(self)@.debug {
                    Some(c) => Some(c.resume()),
                    None => None,
                },
                ..old(self)@
            }),
    {
        match self.debug {
            Some(mut controller) => {
                controller.resume();
                self.debug = Some(controller);
            },
            None => {},
        }
    }

    /// The host's "step": a halted machine executes exactly one cycle at
    /// the next step, unless it has faulted. Without a debug controller
    /// nothing changes.
    pub fn single_step(&mut self)
        requires
            old(self).wf(),
        ensures
            final(self).wf(),
            final(self)@ == (Machine {
                debug: match old(self)@.debug {
                    Some(c) => Some(c.single_step()),
                    None => None,
                },
                ..old(self)@
            }),
    {
        match self.debug {
            Some(mut controller) => {
                controller.single_step();
                self.debug = Some(controller);
            },
            None => {},
        }
    }

    /// The debug controller, if one is attached.
    pub fn debug_controller(&self) -> (controller: Option<DebugController>)
        ensures
            match controller {
                Some(c) => self@.debug == Some(c@),
                None => self@.debug is None,
            },
    {
        self.debug
    }
}

} // verus!
