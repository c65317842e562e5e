//! The library's stated laws: operand ordering, stack discipline, slot
//! naming, wide-pop accounting, and loud failure on unsupported opcodes,
//! each proved over the reconstruction model.

use vstd::prelude::*;

use crate::codegen::other::spec_statement_text;
use crate::codegen::store::spec_store;
use crate::codegen::value::{
    rec_binary, rec_value, spec_is_binary_instr, spec_is_construct_instr,
    spec_is_conversion_instr, spec_is_indexed_instr, spec_is_leaf_instr, spec_is_pool_instr,
};
use crate::constant_pool::CPEntryV;
use crate::error::DecompileError;
use crate::instruction::{spec_is_array_store, spec_is_value_producer, Instruction};
use crate::jtype::{spec_is_two_slot, TypeV};
use crate::numfmt::spec_dec_nat;
use crate::variable::{spec_local_name, MethodInformation, VariableV};

verus! {

/// Operand ordering: a binary operator reconstructs its right-hand operand
/// first, then its left-hand one, and places the left operand's text before
/// the operator and the right operand's text after it. This holds for every
/// binary-arithmetic opcode, since each of their reconstruction rules is
/// `rec_binary` with that opcode's operator text and result type.
pub proof fn lemma_binary_operand_order(
    st: Seq<Instruction>,
    pool: Seq<CPEntryV>,
    mi: MethodInformation,
    op: Seq<char>,
    ty: TypeV,
    right_text: Seq<char>,
    right_ty: TypeV,
    s1: Seq<Instruction>,
    left_text: Seq<char>,
    left_ty: TypeV,
    s2: Seq<Instruction>,
)
    requires
        rec_value(st, pool, mi) == Ok::<_, DecompileError>((right_text, right_ty, s1)),
        s1.len() < st.len(),
        rec_value(s1, pool, mi) == Ok::<_, DecompileError>((left_text, left_ty, s2)),
    ensures
        rec_binary(st, pool, mi, op, ty) == Ok::<_, DecompileError>(
            (left_text + op + right_text, ty, s2),
        ),
{
}

/// The LIFO invariant on a two-value stream: with `A` pushed first and `B`
/// second, a binary opcode renders `A OP B`, never `B OP A`. `A` and `B`
/// are any instructions that consume nothing further from the stack.
pub proof fn lemma_lifo_two_pushes(
    a: Instruction,
    b: Instruction,
    pool: Seq<CPEntryV>,
    mi: MethodInformation,
    a_text: Seq<char>,
    a_ty: TypeV,
    b_text: Seq<char>,
    b_ty: TypeV,
    op: Seq<char>,
    ty: TypeV,
)
    requires
        rec_value(seq![a, b], pool, mi) == Ok::<_, DecompileError>((b_text, b_ty, seq![a])),
        rec_value(seq![a], pool, mi) == Ok::<_, DecompileError>(
            (a_text, a_ty, Seq::<Instruction>::empty()),
        ),
    ensures
        rec_binary(seq![a, b], pool, mi, op, ty) == Ok::<_, DecompileError>(
            (a_text + op + b_text, ty, Seq::<Instruction>::empty()),
        ),
{
    assert(seq![a].len() < seq![a, b].len());
}

/// Slot naming: a slot below the argument count names `this` (slot zero of
/// an instance method) or `arg<slot>`; any other slot names `var<slot>`.
/// The dedicated fast-path opcodes for slots zero to three use this same
/// policy, so they agree with the general form by construction.
pub proof fn lemma_slot_naming(mi: MethodInformation, slot: nat)
    ensures
        slot < mi.arg_count && !(slot == 0 && !mi.is_static) ==> spec_local_name(mi, slot) == "arg"@
            + spec_dec_nat(slot),
        slot == 0 && !mi.is_static && 0 < mi.arg_count ==> spec_local_name(mi, slot) == "this"@,
        slot >= mi.arg_count ==> spec_local_name(mi, slot) == "var"@ + spec_dec_nat(slot),
{
}

/// Array store ordering: with the array reference pushed first, the index
/// second and the value third, an array store pops value, index and
/// reference in that order and renders `aref[index] = value;`.
pub proof fn lemma_array_store_order(
    i: Instruction,
    st: Seq<Instruction>,
    table: Seq<VariableV>,
    pool: Seq<CPEntryV>,
    mi: MethodInformation,
    value_text: Seq<char>,
    value_ty: TypeV,
    s1: Seq<Instruction>,
    index_text: Seq<char>,
    index_ty: TypeV,
    s2: Seq<Instruction>,
    aref_text: Seq<char>,
    aref_ty: TypeV,
    s3: Seq<Instruction>,
)
    requires
        spec_is_array_store(i),
        rec_value(st, pool, mi) == Ok::<_, DecompileError>((value_text, value_ty, s1)),
        rec_value(s1, pool, mi) == Ok::<_, DecompileError>((index_text, index_ty, s2)),
        rec_value(s2, pool, mi) == Ok::<_, DecompileError>((aref_text, aref_ty, s3)),
    ensures
        spec_store(i, st, table, pool, mi) == Ok::<_, DecompileError>(
            (aref_text + "["@ + index_text + "] = "@ + value_text + ";\n"@, s3, table),
        ),
{
}

/// Wide-pop accounting: the second pop of `pop2` fires exactly when the
/// first popped value's type is not a two-slot category (`long`/`double`).
/// A two-slot value is popped alone; a one-slot value is followed by a
/// second pop.
pub proof fn lemma_wide_pop(
    st: Seq<Instruction>,
    pool: Seq<CPEntryV>,
    mi: MethodInformation,
    first_text: Seq<char>,
    first_ty: TypeV,
    s1: Seq<Instruction>,
)
    requires
        rec_value(st, pool, mi) == Ok::<_, DecompileError>((first_text, first_ty, s1)),
    ensures
        spec_is_two_slot(first_ty) ==> spec_statement_text(Instruction::Pop2, st, pool, mi)
            == Ok::<_, DecompileError>((Seq::<char>::empty(), s1)),
        !spec_is_two_slot(first_ty) ==> spec_statement_text(Instruction::Pop2, st, pool, mi)
            == (match rec_value(s1, pool, mi) {
            Ok((second_text, second_ty, s2)) => Ok((Seq::<char>::empty(), s2)),
            Err(e) => Err(e),
        }),
{
}

/// Loud failure: consuming a deferred value-producing instruction with no
/// authored reconstruction rule fails the unit with `UnsupportedOpcode`,
/// whatever else the stack holds; no text is produced.
pub proof fn lemma_unsupported_fails(
    st: Seq<Instruction>,
    pool: Seq<CPEntryV>,
    mi: MethodInformation,
    i: Instruction,
)
    requires
        spec_is_value_producer(i),
        !spec_is_binary_instr(i),
        !spec_is_conversion_instr(i),
        !spec_is_leaf_instr(i),
        !spec_is_indexed_instr(i),
        !spec_is_pool_instr(i),
        !spec_is_construct_instr(i),
    ensures
        rec_value(st.push(i), pool, mi) == Err::<(Seq<char>, TypeV, Seq<Instruction>), _>(
            DecompileError::UnsupportedOpcode,
        ),
{
    let t = st.push(i);
    assert(t.len() > 0 && t.last() == i);
}

} // verus!
