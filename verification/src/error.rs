//! The conditions that stop the machine.

use vstd::prelude::*;
use vstd::string::StringExecFns;
use crate::text::{digits4, push_digits4};

verus! {

/// Why a program image was refused or a cycle could not complete.
#[derive(Clone, Copy, Debug, PartialEq, Eq, Structural)]
pub enum Chip8Error {
    /// The program image could not be read. Only a host's loader raises
    /// this; nothing in this crate touches a file.
    Io,
    /// No dispatch rule matches the fetched word, which is carried along.
    IllegalInstruction(u16),
    /// The program image, whose length is carried along, does not fit
    /// between the load address and the end of memory.
    ProgramTooLarge(usize),
    /// A call was dispatched while all sixteen stack slots were in use.
    StackOverflow,
    /// A return was dispatched while the stack was empty.
    StackUnderflow,
    /// The program counter, carried along, does not leave room for a
    /// two-byte fetch inside memory.
    ProgramCounterOutOfBounds(u16),
    /// An instruction would have read or written memory through the index
    /// register, carried along, past the last addressable byte.
    IndexOutOfBounds(u16),
}

impl Chip8Error {
    /// The error in words. A word that it carries follows as four
    /// hexadecimal digits.
    pub open spec fn message_spec(self) -> Seq<char> {
        match self {
            Chip8Error::Io => "error reading file"@,
            Chip8Error::IllegalInstruction(opcode) => "illegal instruction: "@ + digits4(
                opcode as int,
            ),
            Chip8Error::ProgramTooLarge(_) => "program image too large"@,
            Chip8Error::StackOverflow => "stack overflow"@,
            Chip8Error::StackUnderflow => "stack underflow"@,
            Chip8Error::ProgramCounterOutOfBounds(pc) => "program counter out of bounds: "@
                + digits4(pc as int),
            Chip8Error::IndexOutOfBounds(index) => "index register out of bounds: "@ + digits4(
                index as int,
            ),
        }
    }

    /// The error in words, for display.
    pub fn message(&self) -> (text: String)
        ensures
            text@ == self.message_spec(),
    {
        match self {
            Chip8Error::Io => String::from_str("error reading file"),
            Chip8Error::IllegalInstruction(opcode) => {
                let mut text = String::from_str("illegal instruction: ");
                push_digits4(&mut text, *opcode);
                text
            },
            Chip8Error::ProgramTooLarge(_) => String::from_str("program image too large"),
            Chip8Error::StackOverflow => String::from_str("stack overflow"),
            Chip8Error::StackUnderflow => String::from_str("stack underflow"),
            Chip8Error::ProgramCounterOutOfBounds(pc) => {
                let mut text = String::from_str("program counter out of bounds: ");
                push_digits4(&mut text, *pc);
                text
            },
            Chip8Error::IndexOutOfBounds(index) => {
                let mut text = String::from_str("index register out of bounds: ");
                push_digits4(&mut text, *index);
                text
            },
        }
    }
}

} // verus!
