//! The disassembler: a readable mnemonic for an instruction word.

use vstd::prelude::*;
use vstd::string::StringExecFns;
use crate::decoder::{decode, decode_spec, Instruction};
use crate::text::{
    hex1, hex2, hex3, hex4, push_hex1, push_hex2, push_hex3, push_hex4, push_register,
    register_name,
};

verus! {

/// The name of the operation, without its operands.
pub open spec fn operation_name(instruction: Instruction) -> Seq<char> {
    match instruction {
        Instruction::Halt => "halt"@,
        Instruction::ClearDisplay => "cls"@,
        Instruction::Return => "ret"@,
        Instruction::Jump { .. } | Instruction::JumpOffset { .. } => "jp"@,
        Instruction::Call { .. } => "call"@,
        Instruction::SkipEqualImmediate { .. } | Instruction::SkipEqualRegister { .. } => "se"@,
        Instruction::SkipNotEqualImmediate { .. } | Instruction::SkipNotEqualRegister { .. } => "sne"@,
        Instruction::LoadImmediate { .. }
        | Instruction::LoadRegister { .. }
        | Instruction::LoadIndex { .. }
        | Instruction::ReadDelay { .. }
        | Instruction::WaitKey { .. }
        | Instruction::SetDelay { .. }
        | Instruction::SetSound { .. }
        | Instruction::LoadGlyph { .. }
        | Instruction::StoreDecimal { .. }
        | Instruction::StoreRegisters { .. }
        | Instruction::LoadRegisters { .. } => "ld"@,
        Instruction::AddImmediate { .. }
        | Instruction::AddRegister { .. }
        | Instruction::AddIndex { .. } => "add"@,
        Instruction::Or { .. } => "or"@,
        Instruction::And { .. } => "and"@,
        Instruction::Xor { .. } => "xor"@,
        Instruction::Subtract { .. } => "sub"@,
        Instruction::ShiftRight { .. } => "shr"@,
        Instruction::SubtractReversed { .. } => "subn"@,
        Instruction::ShiftLeft { .. } => "shl"@,
        Instruction::Random { .. } => "rnd"@,
        Instruction::Draw { .. } => "drw"@,
        Instruction::SkipKeyDown { .. } => "skp"@,
        Instruction::SkipKeyUp { .. } => "sknp"@,
        Instruction::Illegal { .. } => "dw"@,
    }
}

/// The operands as they are written after the name: empty, or a space and
/// the operands with `, ` between them.
pub open spec fn operands(instruction: Instruction) -> Seq<char> {
    match instruction {
        Instruction::Halt | Instruction::ClearDisplay | Instruction::Return => Seq::empty(),
        Instruction::Jump { nnn } | Instruction::Call { nnn } => " "@ + hex3(nnn as int),
        Instruction::SkipEqualImmediate { x, kk }
        | Instruction::SkipNotEqualImmediate { x, kk }
        | Instruction::LoadImmediate { x, kk }
        | Instruction::AddImmediate { x, kk }
        | Instruction::Random { x, kk } => " "@ + register_name(x as int) + ", "@ + hex2(
            kk as int,
        ),
        Instruction::SkipEqualRegister { x, y }
        | Instruction::SkipNotEqualRegister { x, y }
        | Instruction::LoadRegister { x, y }
        | Instruction::Or { x, y }
        | Instruction::And { x, y }
        | Instruction::Xor { x, y }
        | Instruction::AddRegister { x, y }
        | Instruction::Subtract { x, y }
        | Instruction::SubtractReversed { x, y } => " "@ + register_name(x as int) + ", "@
            + register_name(y as int),
        Instruction::ShiftRight { x }
        | Instruction::ShiftLeft { x }
        | Instruction::SkipKeyDown { x }
        | Instruction::SkipKeyUp { x } => " "@ + register_name(x as int),
        Instruction::LoadIndex { nnn } => " i, "@ + hex3(nnn as int),
        Instruction::JumpOffset { nnn } => " v0, "@ + hex3(nnn as int),
        Instruction::Draw { x, y, n } => " "@ + register_name(x as int) + ", "@ + register_name(
            y as int,
        ) + ", "@ + hex1(n as int),
        Instruction::ReadDelay { x } => " "@ + register_name(x as int) + ", dt"@,
        Instruction::WaitKey { x } => " "@ + register_name(x as int) + ", k"@,
        Instruction::SetDelay { x } => " dt, "@ + register_name(x as int),
        Instruction::SetSound { x } => " st, "@ + register_name(x as int),
        Instruction::AddIndex { x } => " i, "@ + register_name(x as int),
        Instruction::LoadGlyph { x } => " f, "@ + register_name(x as int),
        Instruction::StoreDecimal { x } => " b, "@ + register_name(x as int),
        Instruction::StoreRegisters { x } => " [i], "@ + register_name(x as int),
        Instruction::LoadRegisters { x } => " "@ + register_name(x as int) + ", [i]"@,
        Instruction::Illegal { opcode } => " "@ + hex4(opcode as int),
    }
}

/// The mnemonic of `instruction`: the name of the operation, then its
/// operands.
pub open spec fn mnemonic(instruction: Instruction) -> Seq<char> {
    operation_name(instruction) + operands(instruction)
}

/// The name of the operation, without its operands.
fn name_of(instruction: Instruction) -> (name: &'static str)
    ensures
        name@ == operation_name(instruction),
{
    match instruction {
        Instruction::Halt => "halt",
        Instruction::ClearDisplay => "cls",
        Instruction::Return => "ret",
        Instruction::Jump { .. } | Instruction::JumpOffset { .. } => "jp",
        Instruction::Call { .. } => "call",
        Instruction::SkipEqualImmediate { .. } | Instruction::SkipEqualRegister { .. } => "se",
        Instruction::SkipNotEqualImmediate { .. } | Instruction::SkipNotEqualRegister { .. } => "sne",
        Instruction::LoadImmediate { .. }
        | Instruction::LoadRegister { .. }
        | Instruction::LoadIndex { .. }
        | Instruction::ReadDelay { .. }
        | Instruction::WaitKey { .. }
        | Instruction::SetDelay { .. }
        | Instruction::SetSound { .. }
        | Instruction::LoadGlyph { .. }
        | Instruction::StoreDecimal { .. }
        | Instruction::StoreRegisters { .. }
        | Instruction::LoadRegisters { .. } => "ld",
        Instruction::AddImmediate { .. }
        | Instruction::AddRegister { .. }
        | Instruction::AddIndex { .. } => "add",
        Instruction::Or { .. } => "or",
        Instruction::And { .. } => "and",
        Instruction::Xor { .. } => "xor",
        Instruction::Subtract { .. } => "sub",
        Instruction::ShiftRight { .. } => "shr",
        Instruction::SubtractReversed { .. } => "subn",
        Instruction::ShiftLeft { .. } => "shl",
        Instruction::Random { .. } => "rnd",
        Instruction::Draw { .. } => "drw",
        Instruction::SkipKeyDown { .. } => "skp",
        Instruction::SkipKeyUp { .. } => "sknp",
        Instruction::Illegal { .. } => "dw",
    }
}

/// Appends the operands of `instruction` as they are written after the
/// name.
fn push_operands(text: &mut String, instruction: Instruction)
    requires
        instruction.wf(),
    ensures
        final(text)@ == old(text)@ + operands(instruction),
{
    match instruction {
        Instruction::Halt | Instruction::ClearDisplay | Instruction::Return => {},
        Instruction::Jump { nnn } | Instruction::Call { nnn } => {
            text.append(" ");
            push_hex3(text, nnn);
        },
        Instruction::SkipEqualImmediate { x, kk }
        | Instruction::SkipNotEqualImmediate { x, kk }
        | Instruction::LoadImmediate { x, kk }
        | Instruction::AddImmediate { x, kk }
        | Instruction::Random { x, kk } => {
            text.append(" ");
            push_register(text, x);
            text.append(", ");
            push_hex2(text, kk);
        },
        Instruction::SkipEqualRegister { x, y }
        | Instruction::SkipNotEqualRegister { x, y }
        | Instruction::LoadRegister { x, y }
        | Instruction::Or { x, y }
        | Instruction::And { x, y }
        | Instruction::Xor { x, y }
        | Instruction::AddRegister { x, y }
        | Instruction::Subtract { x, y }
        | Instruction::SubtractReversed { x, y } => {
            text.append(" ");
            push_register(text, x);
            text.append(", ");
            push_register(text, y);
        },
        Instruction::ShiftRight { x }
        | Instruction::ShiftLeft { x }
        | Instruction::SkipKeyDown { x }
        | Instruction::SkipKeyUp { x } => {
            text.append(" ");
            push_register(text, x);
        },
        Instruction::LoadIndex { nnn } => {
            text.append(" i, ");
            push_hex3(text, nnn);
        },
        Instruction::JumpOffset { nnn } => {
            text.append(" v0, ");
            push_hex3(text, nnn);
        },
        Instruction::Draw { x, y, n } => {
            text.append(" ");
            push_register(text, x);
            text.append(", ");
            push_register(text, y);
            text.append(", ");
            push_hex1(text, n);
        },
        Instruction::ReadDelay { x } => {
            text.append(" ");
            push_register(text, x);
            text.append(", dt");
        },
        Instruction::WaitKey { x } => {
            text.append(" ");
            push_register(text, x);
            text.append(", k");
        },
        Instruction::SetDelay { x } => {
            text.append(" dt, ");
            push_register(text, x);
        },
        Instruction::SetSound { x } => {
            text.append(" st, ");
            push_register(text, x);
        },
        Instruction::AddIndex { x } => {
            text.append(" i, ");
            push_register(text, x);
        },
        Instruction::LoadGlyph { x } => {
            text.append(" f, ");
            push_register(text, x);
        },
        Instruction::StoreDecimal { x } => {
            text.append(" b, ");
            push_register(text, x);
        },
        Instruction::StoreRegisters { x } => {
            text.append(" [i], ");
            push_register(text, x);
        },
        Instruction::LoadRegisters { x } => {
            text.append(" ");
            push_register(text, x);
            text.append(", [i]");
        },
        Instruction::Illegal { opcode } => {
            text.append(" ");
            push_hex4(text, opcode);
        },
    }
}

/// The mnemonic of the instruction that `opcode` encodes, for display. It
/// reads no state and changes none.
pub fn disassemble(opcode: u16) -> (text: String)
    ensures
        text@ == mnemonic(decode_spec(opcode)),
{
    let instruction = decode(opcode);
    let mut text = String::from_str(name_of(instruction));
    push_operands(&mut text, instruction);
    text
}

} // verus!
