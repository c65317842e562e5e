//! Store statements: array-element stores and local-variable stores.
//!
//! Operands are popped mirroring push order: the stored value first, then
//! (for array forms) the index, then the array reference. A local slot seen
//! for the first time is registered in the variable table and rendered with
//! a type prefix exactly once.

use vstd::prelude::*;

use crate::codegen::value::{get_value, rec_value, value_chars};
use crate::constant_pool::{CPEntryV, ConstantPool};
use crate::error::DecompileError;
use crate::instruction::{spec_is_array_store, spec_store_slot, Instruction};
use crate::jtype::{push_type_text, spec_type_text, Type, TypeV};
use crate::text::{push_chars, push_str_chars, string_from_chars};
use crate::variable::{
    push_local_name, spec_local_name, spec_table_has, table_has, MethodInformation, Variable,
    VariableV,
};

verus! {

/// The rendering of a stored-into local slot, with the table that results:
/// an argument-range slot keeps its argument name; a known local is a bare
/// reference; a first-seen local is declared with the stored value's type
/// and registered.
pub open spec fn spec_get_var(
    mi: MethodInformation,
    table: Seq<VariableV>,
    value_ty: TypeV,
    slot: u16,
) -> (Seq<char>, Seq<VariableV>) {
    if (slot as nat) < mi.arg_count || spec_table_has(table, slot) {
        (spec_local_name(mi, slot as nat), table)
    } else {
        (
            spec_type_text(value_ty) + " "@ + spec_local_name(mi, slot as nat),
            table.push(VariableV { ty: value_ty, var_num: slot }),
        )
    }
}

/// The statement a store instruction emits: the text, the stack that
/// remains, and the variable table that results. Anything that is not a
/// store has no rule here.
pub open spec fn spec_store(
    i: Instruction,
    st: Seq<Instruction>,
    table: Seq<VariableV>,
    pool: Seq<CPEntryV>,
    mi: MethodInformation,
) -> Result<(Seq<char>, Seq<Instruction>, Seq<VariableV>), DecompileError> {
    if spec_is_array_store(i) {
        match rec_value(st, pool, mi) {
            Ok((value, _vty, s1)) => match rec_value(s1, pool, mi) {
                Ok((index, _ity, s2)) => match rec_value(s2, pool, mi) {
                    Ok((aref, _aty, s3)) => Ok(
                        (aref + "["@ + index + "] = "@ + value + ";\n"@, s3, table),
                    ),
                    Err(e) => Err(e),
                },
                Err(e) => Err(e),
            },
            Err(e) => Err(e),
        }
    } else {
        match spec_store_slot(i) {
            Some(slot) => match rec_value(st, pool, mi) {
                Ok((value, vty, s1)) => {
                    let (name, table2) = spec_get_var(mi, table, vty, slot);
                    Ok((name + " = "@ + value + ";\n"@, s1, table2))
                },
                Err(e) => Err(e),
            },
            None => Err(DecompileError::UnsupportedOpcode),
        }
    }
}

/// The name a stored-into slot is rendered with; a first-seen local slot is
/// declared with the stored value's type and added to the table.
pub fn get_var(
    method_information: &MethodInformation,
    variable_table: &mut Vec<Variable>,
    objectref: &(String, Type),
    var_num: u16,
) -> (r: String)
    ensures
        ({
            let (name, table2) = spec_get_var(
                *method_information,
                old(variable_table).deep_view(),
                objectref.1@,
                var_num,
            );
            r@ == name && final(variable_table).deep_view() == table2
        }),
{
    let ghost table0 = variable_table.deep_view();
    if (var_num as u16) < (method_information.arg_count as u16) || table_has(
        variable_table,
        var_num,
    ) {
        let mut out: Vec<char> = Vec::new();
        push_local_name(&mut out, method_information, var_num);
        string_from_chars(out)
    } else {
        let mut out: Vec<char> = Vec::new();
        push_type_text(&mut out, &objectref.1);
        push_str_chars(&mut out, " ");
        push_local_name(&mut out, method_information, var_num);
        let ghost vty = objectref.1@;
        variable_table.push(Variable { ty: objectref.1.dup(), var_num });
        proof {
            let dv = variable_table.deep_view();
            let expect = table0.push(VariableV { ty: vty, var_num });
            assert(variable_table@.len() == table0.len() + 1);
            assert forall|k: int| 0 <= k < dv.len() implies dv[k] == expect[k] by {
                if k < table0.len() {
                    assert(variable_table@[k] == old(variable_table)@[k]);
                } else {
                    assert(variable_table@[k].deep_view() == VariableV { ty: vty, var_num });
                }
            }
            assert(dv =~= expect);
        }
        string_from_chars(out)
    }
}

/// Emits the statement for a store instruction: `target[index] = value;` or
/// `name = value;`, the stored value popped first. A non-store instruction
/// here is a caller defect and fails the unit.
pub fn decompile_store_instruction(
    instruction: &Instruction,
    instructions_stack: &mut Vec<Instruction>,
    constant_pool: &ConstantPool,
    method_information: &MethodInformation,
    variable_table: &mut Vec<Variable>,
) -> (r: Result<String, DecompileError>)
    ensures
        match r {
            Ok(code) => ({
                spec_store(
                    *instruction,
                    old(instructions_stack)@,
                    old(variable_table).deep_view(),
                    constant_pool@,
                    *method_information,
                ) == Ok::<_, DecompileError>(
                    (code@, final(instructions_stack)@, final(variable_table).deep_view()),
                )
            }),
            Err(e) => spec_store(
                *instruction,
                old(instructions_stack)@,
                old(variable_table).deep_view(),
                constant_pool@,
                *method_information,
            ) == Err::<(Seq<char>, Seq<Instruction>, Seq<VariableV>), _>(e),
        },
{
    let is_array = matches!(
        instruction,
        Instruction::AAStore | Instruction::BAStore | Instruction::CAStore | Instruction::DAStore
            | Instruction::FAStore | Instruction::IAStore | Instruction::LAStore
            | Instruction::SAStore
    );
    if is_array {
        let (value, _vty) = match value_chars(
            instructions_stack,
            constant_pool,
            method_information,
        ) {
            Ok(v) => v,
            Err(e) => {
                return Err(e);
            },
        };
        let (index, _ity) = match value_chars(
            instructions_stack,
            constant_pool,
            method_information,
        ) {
            Ok(v) => v,
            Err(e) => {
                return Err(e);
            },
        };
        let (aref, _aty) = match value_chars(instructions_stack, constant_pool, method_information)
        {
            Ok(v) => v,
            Err(e) => {
                return Err(e);
            },
        };
        let mut code = aref;
        push_str_chars(&mut code, "[");
        push_chars(&mut code, &index);
        push_str_chars(&mut code, "] = ");
        push_chars(&mut code, &value);
        push_str_chars(&mut code, ";\n");
        Ok(string_from_chars(code))
    } else {
        let slot: u16 = match instruction {
            Instruction::AStore(n)
            | Instruction::DStore(n)
            | Instruction::FStore(n)
            | Instruction::IStore(n)
            | Instruction::LStore(n) => *n as u16,
            Instruction::AStore0
            | Instruction::DStore0
            | Instruction::FStore0
            | Instruction::IStore0
            | Instruction::LStore0 => 0,
            Instruction::AStore1
            | Instruction::DStore1
            | Instruction::FStore1
            | Instruction::IStore1
            | Instruction::LStore1 => 1,
            Instruction::AStore2
            | Instruction::DStore2
            | Instruction::FStore2
            | Instruction::IStore2
            | Instruction::LStore2 => 2,
            Instruction::AStore3
            | Instruction::DStore3
            | Instruction::FStore3
            | Instruction::IStore3
            | Instruction::LStore3 => 3,
            _ => {
                return Err(DecompileError::UnsupportedOpcode);
            },
        };
        let (value, vty) = match get_value(instructions_stack, constant_pool, method_information) {
            Ok(v) => v,
            Err(e) => {
                return Err(e);
            },
        };
        let objectref = (value, vty);
        let name = get_var(method_information, variable_table, &objectref, slot);
        let mut out = Vec::<char>::new();
        push_str_chars(&mut out, name.as_str());
        push_str_chars(&mut out, " = ");
        push_str_chars(&mut out, objectref.0.as_str());
        push_str_chars(&mut out, ";\n");
        Ok(string_from_chars(out))
    }
}

} // verus!
