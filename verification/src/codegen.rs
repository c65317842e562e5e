//! The code driver: a single forward pass over a method's decoded
//! instruction sequence.
//!
//! Each instruction is classified: value-producing instructions are deferred
//! onto the pending operand stack and never rendered immediately;
//! statement-producing instructions trigger operand reconstruction and
//! append their emitted text in program order. Pending instructions left
//! over at the end of the pass are a diagnostic, surfaced as a trailing
//! comment, not a hard failure.

pub mod field;
pub mod other;
pub mod store;
pub mod value;

use vstd::prelude::*;

use crate::constant_pool::{CPEntryV, ConstantPool};
use crate::error::DecompileError;
use crate::instruction::{
    spec_is_array_store, spec_is_statement, spec_is_value_producer, spec_store_slot, Instruction,
};
use crate::numfmt::{push_dec_u64, spec_dec_nat};
use crate::text::{push_str_chars, string_from_chars};
use crate::variable::{Variable, VariableV};

pub use crate::variable::MethodInformation;

verus! {

/// The effect of one instruction on the pass: the text it appends, and the
/// pending operand stack and variable table that result.
pub open spec fn spec_step(
    i: Instruction,
    st: Seq<Instruction>,
    table: Seq<VariableV>,
    pool: Seq<CPEntryV>,
    mi: MethodInformation,
) -> Result<(Seq<char>, Seq<Instruction>, Seq<VariableV>), DecompileError> {
    if spec_is_value_producer(i) {
        Ok((Seq::<char>::empty(), st.push(i), table))
    } else if spec_is_array_store(i) || spec_store_slot(i) is Some {
        store::spec_store(i, st, table, pool, mi)
    } else if i is PutStatic || i is PutField {
        match field::spec_put(i, st, pool, mi) {
            Ok((text, st2)) => Ok((text, st2, table)),
            Err(e) => Err(e),
        }
    } else {
        match other::spec_statement_text(i, st, pool, mi) {
            Ok((text, st2)) => Ok((text, st2, table)),
            Err(e) => Err(e),
        }
    }
}

/// The pass over `instrs[j..]` from a given stack and table: the emitted
/// text and the final stack and table.
pub open spec fn spec_run(
    instrs: Seq<Instruction>,
    j: int,
    st: Seq<Instruction>,
    table: Seq<VariableV>,
    pool: Seq<CPEntryV>,
    mi: MethodInformation,
) -> Result<(Seq<char>, Seq<Instruction>, Seq<VariableV>), DecompileError>
    decreases instrs.len() - j,
{
    if j < 0 || j >= instrs.len() {
        Ok((Seq::<char>::empty(), st, table))
    } else {
        match spec_step(instrs[j], st, table, pool, mi) {
            Ok((text, st2, table2)) => match spec_run(instrs, j + 1, st2, table2, pool, mi) {
                Ok((text2, st3, table3)) => Ok((text + text2, st3, table3)),
                Err(e) => Err(e),
            },
            Err(e) => Err(e),
        }
    }
}

/// The trailing diagnostic for `n` pending instructions left at the end of
/// the pass.
pub open spec fn spec_leftover_note(n: nat) -> Seq<char> {
    "\n// Instructions Stack is not empty: "@ + spec_dec_nat(n) + " deferred instructions remain.\n"@
}

/// The text generated for a whole instruction sequence: the statements in
/// program order, and a trailing diagnostic comment when deferred
/// instructions remain.
pub open spec fn spec_generate(
    instrs: Seq<Instruction>,
    pool: Seq<CPEntryV>,
    mi: MethodInformation,
) -> Result<Seq<char>, DecompileError> {
    match spec_run(instrs, 0, Seq::<Instruction>::empty(), Seq::<VariableV>::empty(), pool, mi) {
        Ok((text, leftover, _table)) => if leftover.len() == 0 {
            Ok(text)
        } else {
            Ok(text + spec_leftover_note(leftover.len() as nat))
        },
        Err(e) => Err(e),
    }
}

/// The driver's classification of one instruction: deferred value producer,
/// store, field write, or terminator and stack hygiene.
#[verifier::rlimit(100)]
fn classify_instruction(i: Instruction) -> (r: u8)
    ensures
        r == 0 ==> spec_is_value_producer(i),
        r == 1 ==> spec_is_array_store(i) || spec_store_slot(i) is Some,
        r == 2 ==> (i is PutStatic || i is PutField),
        r == 3 ==> spec_is_statement(i) && !spec_is_array_store(i) && spec_store_slot(i) is None
            && !(i is PutStatic || i is PutField),
        r <= 3,
{
    match i {
        Instruction::AAStore
        | Instruction::BAStore
        | Instruction::CAStore
        | Instruction::DAStore
        | Instruction::FAStore
        | Instruction::IAStore
        | Instruction::LAStore
        | Instruction::SAStore
        | Instruction::AStore(_)
        | Instruction::DStore(_)
        | Instruction::FStore(_)
        | Instruction::IStore(_)
        | Instruction::LStore(_)
        | Instruction::AStore0
        | Instruction::DStore0
        | Instruction::FStore0
        | Instruction::IStore0
        | Instruction::LStore0
        | Instruction::AStore1
        | Instruction::DStore1
        | Instruction::FStore1
        | Instruction::IStore1
        | Instruction::LStore1
        | Instruction::AStore2
        | Instruction::DStore2
        | Instruction::FStore2
        | Instruction::IStore2
        | Instruction::LStore2
        | Instruction::AStore3
        | Instruction::DStore3
        | Instruction::FStore3
        | Instruction::IStore3
        | Instruction::LStore3 => 1,
        Instruction::PutStatic(_) | Instruction::PutField(_) => 2,
        Instruction::Return
        | Instruction::AReturn
        | Instruction::DReturn
        | Instruction::FReturn
        | Instruction::IReturn
        | Instruction::LReturn
        | Instruction::AThrow
        | Instruction::Breakpoint
        | Instruction::Nop
        | Instruction::Pop
        | Instruction::Pop2 => 3,
        _ => 0,
    }
}

/// Applies one instruction to the pass: defers a value producer, or emits
/// the statement text for a store, field write, or terminator.
#[verifier::rlimit(100)]
fn run_one(
    i: Instruction,
    instructions_stack: &mut Vec<Instruction>,
    variable_table: &mut Vec<Variable>,
    constant_pool: &ConstantPool,
    method_information: &MethodInformation,
) -> (r: Result<String, DecompileError>)
    ensures
        match r {
            Ok(text) => spec_step(
                i,
                old(instructions_stack)@,
                old(variable_table).deep_view(),
                constant_pool@,
                *method_information,
            ) == Ok::<_, DecompileError>(
                (text@, final(instructions_stack)@, final(variable_table).deep_view()),
            ),
            Err(e) => spec_step(
                i,
                old(instructions_stack)@,
                old(variable_table).deep_view(),
                constant_pool@,
                *method_information,
            ) == Err::<(Seq<char>, Seq<Instruction>, Seq<VariableV>), _>(e),
        },
{
    let kind = classify_instruction(i);
    if kind == 0 {
        instructions_stack.push(i);
        let text = string_from_chars(Vec::new());
        proof {
            assert(text@ =~= Seq::<char>::empty());
        }
        Ok(text)
    } else if kind == 1 {
        store::decompile_store_instruction(
            &i,
            instructions_stack,
            constant_pool,
            method_information,
            variable_table,
        )
    } else if kind == 2 {
        field::decompile_field_instruction(
            &i,
            instructions_stack,
            constant_pool,
            method_information,
        )
    } else {
        other::decompile_instruction(&i, instructions_stack, constant_pool, method_information)
    }
}

/// Generates the statements for a method's decoded instruction sequence:
/// one forward pass, deferring value producers and emitting statements in
/// program order. An opcode with no authored rule fails the unit: no
/// partial output is returned.
#[verifier::rlimit(100)]
pub fn generate_code(
    instructions: &Vec<Instruction>,
    constant_pool: &ConstantPool,
    method_information: &MethodInformation,
) -> (r: Result<String, DecompileError>)
    ensures
        match r {
            Ok(code) => spec_generate(instructions@, constant_pool@, *method_information) == Ok::<
                _,
                DecompileError,
            >(code@),
            Err(e) => spec_generate(instructions@, constant_pool@, *method_information)
                == Err::<Seq<char>, _>(e),
        },
{
    let ghost pool = constant_pool@;
    let ghost mi = *method_information;
    let mut code: Vec<char> = Vec::new();
    let mut instructions_stack: Vec<Instruction> = Vec::new();
    let mut variable_table: Vec<Variable> = Vec::new();
    proof {
        assert(instructions_stack@ =~= Seq::<Instruction>::empty());
        assert(variable_table.deep_view() =~= Seq::<VariableV>::empty());
    }
    let n = instructions.len();
    let mut j: usize = 0;
    while j < n
        invariant
            j <= n,
            n == instructions@.len(),
            pool == constant_pool@,
            mi == *method_information,
            match spec_run(
                instructions@,
                j as int,
                instructions_stack@,
                variable_table.deep_view(),
                pool,
                mi,
            ) {
                Ok((text2, stf, tbf)) => spec_run(
                    instructions@,
                    0,
                    Seq::<Instruction>::empty(),
                    Seq::<VariableV>::empty(),
                    pool,
                    mi,
                ) == Ok::<_, DecompileError>((code@ + text2, stf, tbf)),
                Err(e) => spec_run(
                    instructions@,
                    0,
                    Seq::<Instruction>::empty(),
                    Seq::<VariableV>::empty(),
                    pool,
                    mi,
                ) == Err::<(Seq<char>, Seq<Instruction>, Seq<VariableV>), _>(e),
            },
        decreases n - j,
    {
        let ghost code0 = code@;
        let i = instructions[j];
        let text = match run_one(
            i,
            &mut instructions_stack,
            &mut variable_table,
            constant_pool,
            method_information,
        ) {
            Ok(text) => text,
            Err(e) => {
                return Err(e);
            },
        };
        push_str_chars(&mut code, text.as_str());
        proof {
            let r2 = spec_run(
                instructions@,
                j as int + 1,
                instructions_stack@,
                variable_table.deep_view(),
                pool,
                mi,
            );
            match r2 {
                Ok(o2) => {
                    assert((code0 + text@) + o2.0 =~= code0 + (text@ + o2.0));
                },
                Err(_) => {},
            }
        }
        j = j + 1;
    }
    proof {
        assert(code@ + Seq::<char>::empty() =~= code@);
    }
    let ghost code_done = code@;
    let ghost left_count = instructions_stack@.len();
    if instructions_stack.len() > 0 {
        push_str_chars(&mut code, "\n// Instructions Stack is not empty: ");
        push_dec_u64(&mut code, instructions_stack.len() as u64);
        push_str_chars(&mut code, " deferred instructions remain.\n");
        proof {
            assert(code@ =~= code_done + spec_leftover_note(left_count as nat));
        }
    }
    Ok(string_from_chars(code))
}

} // verus!
