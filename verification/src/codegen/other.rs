//! Terminator and stack-hygiene statements: returns, throws, diagnostic
//! comment markers, and explicit pops.
//!
//! A wide pop reconstructs one value and pops a second one only when the
//! first popped value's type is not a two-slot category (`long`/`double`),
//! mirroring the virtual machine's slot-width accounting.

use vstd::prelude::*;

use crate::codegen::value::{rec_value, value_chars};
use crate::constant_pool::{CPEntryV, ConstantPool};
use crate::error::DecompileError;
use crate::instruction::Instruction;
use crate::jtype::spec_is_two_slot;
use crate::text::{push_chars, push_str_chars, string_from_chars};
use crate::variable::MethodInformation;

verus! {

/// The statement a terminator or stack-hygiene instruction emits, with the
/// stack that remains. Pops emit no text; diagnostic opcodes degrade to
/// comment markers with no semantic effect.
pub open spec fn spec_statement_text(
    i: Instruction,
    st: Seq<Instruction>,
    pool: Seq<CPEntryV>,
    mi: MethodInformation,
) -> Result<(Seq<char>, Seq<Instruction>), DecompileError> {
    match i {
        Instruction::Return => Ok(("return;\n"@, st)),
        Instruction::AReturn
        | Instruction::DReturn
        | Instruction::FReturn
        | Instruction::IReturn
        | Instruction::LReturn => match rec_value(st, pool, mi) {
            Ok((value, _ty, s1)) => Ok(("return "@ + value + ";\n"@, s1)),
            Err(e) => Err(e),
        },
        Instruction::AThrow => match rec_value(st, pool, mi) {
            Ok((value, _ty, s1)) => Ok(("throw "@ + value + ";\n"@, s1)),
            Err(e) => Err(e),
        },
        Instruction::Breakpoint => Ok(("// Breakpoint\n"@, st)),
        Instruction::Nop => Ok(("// Nop\n"@, st)),
        Instruction::Pop => match rec_value(st, pool, mi) {
            Ok((_value, _ty, s1)) => Ok((Seq::<char>::empty(), s1)),
            Err(e) => Err(e),
        },
        Instruction::Pop2 => match rec_value(st, pool, mi) {
            Ok((_value, ty, s1)) => if spec_is_two_slot(ty) {
                Ok((Seq::<char>::empty(), s1))
            } else {
                match rec_value(s1, pool, mi) {
                    Ok((_value2, _ty2, s2)) => Ok((Seq::<char>::empty(), s2)),
                    Err(e) => Err(e),
                }
            },
            Err(e) => Err(e),
        },
        _ => Err(DecompileError::UnsupportedOpcode),
    }
}

/// Emits a terminator (`return;`, `return v;`, `throw v;`), a diagnostic
/// comment, or performs stack hygiene. Any other instruction here is a
/// caller defect and fails the unit.
pub fn decompile_instruction(
    instruction: &Instruction,
    instructions_stack: &mut Vec<Instruction>,
    constant_pool: &ConstantPool,
    method_information: &MethodInformation,
) -> (r: Result<String, DecompileError>)
    ensures
        match r {
            Ok(code) => spec_statement_text(
                *instruction,
                old(instructions_stack)@,
                constant_pool@,
                *method_information,
            ) == Ok::<_, DecompileError>((code@, final(instructions_stack)@)),
            Err(e) => spec_statement_text(
                *instruction,
                old(instructions_stack)@,
                constant_pool@,
                *method_information,
            ) == Err::<(Seq<char>, Seq<Instruction>), _>(e),
        },
{
    match instruction {
        Instruction::Return => {
            let out = chars_of("return;\n");
            Ok(string_from_chars(out))
        },
        Instruction::AReturn
        | Instruction::DReturn
        | Instruction::FReturn
        | Instruction::IReturn
        | Instruction::LReturn => {
            let (value, _ty) = match value_chars(
                instructions_stack,
                constant_pool,
                method_information,
            ) {
                Ok(v) => v,
                Err(e) => {
                    return Err(e);
                },
            };
            let mut out = chars_of("return ");
            push_chars(&mut out, &value);
            push_str_chars(&mut out, ";\n");
            Ok(string_from_chars(out))
        },
        Instruction::AThrow => {
            let (value, _ty) = match value_chars(
                instructions_stack,
                constant_pool,
                method_information,
            ) {
                Ok(v) => v,
                Err(e) => {
                    return Err(e);
                },
            };
            let mut out = chars_of("throw ");
            push_chars(&mut out, &value);
            push_str_chars(&mut out, ";\n");
            Ok(string_from_chars(out))
        },
        Instruction::Breakpoint => {
            let out = chars_of("// Breakpoint\n");
            Ok(string_from_chars(out))
        },
        Instruction::Nop => {
            let out = chars_of("// Nop\n");
            Ok(string_from_chars(out))
        },
        Instruction::Pop => {
            match value_chars(instructions_stack, constant_pool, method_information) {
                Ok(_) => {},
                Err(e) => {
                    return Err(e);
                },
            };
            Ok(string_from_chars(Vec::new()))
        },
        Instruction::Pop2 => {
            let (_value, ty) = match value_chars(
                instructions_stack,
                constant_pool,
                method_information,
            ) {
                Ok(v) => v,
                Err(e) => {
                    return Err(e);
                },
            };
            if !ty.is_two_slot() {
                match value_chars(instructions_stack, constant_pool, method_information) {
                    Ok(_) => {},
                    Err(e) => {
                        return Err(e);
                    },
                };
            }
            Ok(string_from_chars(Vec::new()))
        },
        _ => Err(DecompileError::UnsupportedOpcode),
    }
}

/// The characters of a literal, as a fresh vector.
fn chars_of(s: &str) -> (r: Vec<char>)
    ensures
        r@ == s@,
{
    crate::text::chars_from_str(s)
}

} // verus!
