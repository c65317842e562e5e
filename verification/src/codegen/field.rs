//! Field-write statements: static field stores qualified by the owning
//! class, instance field stores qualified by the reconstructed receiver.

use vstd::prelude::*;

use crate::codegen::value::{rec_value, spec_field_ref, value_chars};
use crate::constant_pool::{CPEntryV, ConstantPool};
use crate::error::DecompileError;
use crate::instruction::Instruction;
use crate::text::{chars_from_str, push_chars, push_str_chars, string_from_chars};
use crate::variable::MethodInformation;

verus! {

/// The statement a field write emits, with the stack that remains: the
/// stored value is popped first, then (for an instance field) the receiver.
pub open spec fn spec_put(
    i: Instruction,
    st: Seq<Instruction>,
    pool: Seq<CPEntryV>,
    mi: MethodInformation,
) -> Result<(Seq<char>, Seq<Instruction>), DecompileError> {
    match i {
        Instruction::PutStatic(index) => match rec_value(st, pool, mi) {
            Ok((value, _vty, s1)) => match spec_field_ref(pool, index) {
                Ok((class_name, name, _descriptor)) => Ok(
                    (class_name + "."@ + name + " = "@ + value + ";\n"@, s1),
                ),
                Err(e) => Err(e),
            },
            Err(e) => Err(e),
        },
        Instruction::PutField(index) => match rec_value(st, pool, mi) {
            Ok((value, _vty, s1)) => match rec_value(s1, pool, mi) {
                Ok((receiver, _rty, s2)) => match spec_field_ref(pool, index) {
                    Ok((_class_name, name, _descriptor)) => Ok(
                        (receiver + "."@ + name + " = "@ + value + ";\n"@, s2),
                    ),
                    Err(e) => Err(e),
                },
                Err(e) => Err(e),
            },
            Err(e) => Err(e),
        },
        _ => Err(DecompileError::UnsupportedOpcode),
    }
}

/// Emits `Class.field = value;` or `receiver.field = value;`. Any other
/// instruction here is a caller defect and fails the unit.
pub fn decompile_field_instruction(
    instruction: &Instruction,
    instructions_stack: &mut Vec<Instruction>,
    constant_pool: &ConstantPool,
    method_information: &MethodInformation,
) -> (r: Result<String, DecompileError>)
    ensures
        match r {
            Ok(code) => spec_put(
                *instruction,
                old(instructions_stack)@,
                constant_pool@,
                *method_information,
            ) == Ok::<_, DecompileError>((code@, final(instructions_stack)@)),
            Err(e) => spec_put(
                *instruction,
                old(instructions_stack)@,
                constant_pool@,
                *method_information,
            ) == Err::<(Seq<char>, Seq<Instruction>), _>(e),
        },
{
    match instruction {
        Instruction::PutStatic(index) => {
            let (value, _vty) = match value_chars(
                instructions_stack,
                constant_pool,
                method_information,
            ) {
                Ok(v) => v,
                Err(e) => {
                    return Err(e);
                },
            };
            let (class_name, name, _descriptor) = match crate::codegen::value::field_ref_parts(
                constant_pool,
                *index,
            ) {
                Ok(v) => v,
                Err(e) => {
                    return Err(e);
                },
            };
            let mut out = chars_from_str(class_name.as_str());
            push_str_chars(&mut out, ".");
            push_str_chars(&mut out, name.as_str());
            push_str_chars(&mut out, " = ");
            push_chars(&mut out, &value);
            push_str_chars(&mut out, ";\n");
            Ok(string_from_chars(out))
        },
        Instruction::PutField(index) => {
            let (value, _vty) = match value_chars(
                instructions_stack,
                constant_pool,
                method_information,
            ) {
                Ok(v) => v,
                Err(e) => {
                    return Err(e);
                },
            };
            let (receiver, _rty) = match value_chars(
                instructions_stack,
                constant_pool,
                method_information,
            ) {
                Ok(v) => v,
                Err(e) => {
                    return Err(e);
                },
            };
            let (_class_name, name, _descriptor) = match crate::codegen::value::field_ref_parts(
                constant_pool,
                *index,
            ) {
                Ok(v) => v,
                Err(e) => {
                    return Err(e);
                },
            };
            let mut out = receiver;
            push_str_chars(&mut out, ".");
            push_str_chars(&mut out, name.as_str());
            push_str_chars(&mut out, " = ");
            push_chars(&mut out, &value);
            push_str_chars(&mut out, ";\n");
            Ok(string_from_chars(out))
        },
        _ => Err(DecompileError::UnsupportedOpcode),
    }
}

} // verus!
