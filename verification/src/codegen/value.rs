//! The operand stack simulator and value reconstructor.
//!
//! A sequence of deferred value-producing instructions is replayed into one
//! textual expression with a static type. Popping the most recently pushed
//! pending instruction and recursing into each operand's own pending
//! instructions yields correctly nested, correctly ordered sub-expressions:
//! push order equals depth-first left-to-right evaluation order of the
//! source expression. For binary operators the right-hand operand is
//! reconstructed first, then the left-hand one, because each recursive call
//! pops further from the same shared stack.
//!
//! The function `rec_value` is the library's definition of reconstruction;
//! `get_value` computes it. Where the reference rendering of a numeric
//! conversion disagreed with the opcode's declared target type, the declared
//! target is canonical here.

use vstd::prelude::*;

use crate::constant_pool::{
    spec_class_name_at, spec_entry, spec_utf8_at, CPEntryV, CPIndexType, ConstantPool,
};
use crate::error::DecompileError;
use crate::instruction::Instruction;
use crate::jtype::{
    class_array, get_array_type, push_type_text, spec_from_array_code, spec_strip_array,
    spec_type_text, Type, TypeV,
};
use crate::numfmt::{push_dec_i64, push_dec_u64, spec_dec_int, spec_dec_nat};
use crate::text::{chars_from_str, push_chars, push_str_chars, string_from_chars};
use crate::value::{descriptor_chars, push_dot_strip, spec_descriptor_type, spec_dot_strip};
use crate::variable::{push_local_name, spec_local_name, MethodInformation};

verus! {

/// A resolved field reference: owning class name, field name, and the
/// field's type descriptor.
pub open spec fn spec_field_ref(pool: Seq<CPEntryV>, index: u16) -> Result<
    (Seq<char>, Seq<char>, Seq<char>),
    DecompileError,
> {
    match spec_entry(pool, index) {
        Ok(CPEntryV::FieldRef { class_index, name_and_type_index }) => match spec_class_name_at(
            pool,
            class_index,
        ) {
            Ok(class_name) => match spec_entry(pool, name_and_type_index) {
                Ok(CPEntryV::NameAndType { name_index, descriptor_index }) => match spec_utf8_at(
                    pool,
                    name_index,
                ) {
                    Ok(name) => match spec_utf8_at(pool, descriptor_index) {
                        Ok(descriptor) => Ok((class_name, name, descriptor)),
                        Err(e) => Err(e),
                    },
                    Err(e) => Err(e),
                },
                Ok(_) => Err(DecompileError::PoolKindMismatch),
                Err(e) => Err(e),
            },
            Err(e) => Err(e),
        },
        Ok(_) => Err(DecompileError::PoolKindMismatch),
        Err(e) => Err(e),
    }
}

/// A resolved method reference: owning class name and method name. The
/// name-and-type descriptor must resolve too, though only the names are
/// rendered.
pub open spec fn spec_method_ref(pool: Seq<CPEntryV>, index: u16) -> Result<
    (Seq<char>, Seq<char>),
    DecompileError,
> {
    match spec_entry(pool, index) {
        Ok(CPEntryV::MethodRef { class_index, name_and_type_index }) => match spec_class_name_at(
            pool,
            class_index,
        ) {
            Ok(class_name) => match spec_entry(pool, name_and_type_index) {
                Ok(CPEntryV::NameAndType { name_index, descriptor_index }) => match spec_utf8_at(
                    pool,
                    name_index,
                ) {
                    Ok(name) => match spec_utf8_at(pool, descriptor_index) {
                        Ok(_) => Ok((class_name, name)),
                        Err(e) => Err(e),
                    },
                    Err(e) => Err(e),
                },
                Ok(_) => Err(DecompileError::PoolKindMismatch),
                Err(e) => Err(e),
            },
            Err(e) => Err(e),
        },
        Ok(_) => Err(DecompileError::PoolKindMismatch),
        Err(e) => Err(e),
    }
}

/// The literal a loadable one-slot constant-pool entry decodes to, with its
/// type: a class literal, a `Float` entry's raw bits in decimal, an integer,
/// or quoted string text.
pub open spec fn spec_cp_value(pool: Seq<CPEntryV>, index: u16) -> Result<
    (Seq<char>, TypeV),
    DecompileError,
> {
    match spec_entry(pool, index) {
        Ok(CPEntryV::Class(name_index)) => match spec_utf8_at(pool, name_index) {
            Ok(name) => Ok((name, TypeV::Class(name))),
            Err(e) => Err(e),
        },
        Ok(CPEntryV::Float(bits)) => Ok((spec_dec_nat(bits as nat), TypeV::Float)),
        Ok(CPEntryV::Integer(v)) => Ok((spec_dec_nat(v as nat), TypeV::Int)),
        Ok(CPEntryV::String(text_index)) => match spec_utf8_at(pool, text_index) {
            Ok(text) => Ok(
                (seq!['"'] + text + seq!['"'], TypeV::Class("java.lang.String"@)),
            ),
            Err(e) => Err(e),
        },
        Ok(_) => Err(DecompileError::PoolKindMismatch),
        Err(e) => Err(e),
    }
}

/// The literal a two-slot constant-pool entry decodes to: a `Long`, or a
/// `Double` entry's raw bits in decimal.
pub open spec fn spec_cp_value_wide(pool: Seq<CPEntryV>, index: u16) -> Result<
    (Seq<char>, TypeV),
    DecompileError,
> {
    match spec_entry(pool, index) {
        Ok(CPEntryV::Double(bits)) => Ok((spec_dec_nat(bits as nat), TypeV::Double)),
        Ok(CPEntryV::Long(v)) => Ok((spec_dec_nat(v as nat) + "L"@, TypeV::Long)),
        Ok(_) => Err(DecompileError::PoolKindMismatch),
        Err(e) => Err(e),
    }
}

/// `name` with its first `[]` pair filled with `size`.
pub open spec fn spec_subst_one(name: Seq<char>, size: Seq<char>) -> Seq<char>
    decreases name.len(),
{
    if name.len() < 2 {
        name
    } else if name[0] == '[' && name[1] == ']' {
        seq!['['] + size + seq![']'] + name.skip(2)
    } else {
        seq![name[0]] + spec_subst_one(name.drop_first(), size)
    }
}

/// `name` with successive `[]` pairs filled with the sizes, in order:
/// most-significant dimension first.
pub open spec fn spec_subst_dims(name: Seq<char>, sizes: Seq<Seq<char>>) -> Seq<char>
    decreases sizes.len(),
{
    if sizes.len() == 0 {
        name
    } else {
        spec_subst_dims(spec_subst_one(name, sizes[0]), sizes.drop_first())
    }
}

/// Reconstruction of the most recently pushed pending instruction: the
/// expression text, its static type, and the stack that remains. This is
/// the meaning of every value-producing opcode the library supports;
/// anything unmatched fails with `UnsupportedOpcode`.
pub open spec fn rec_value(st: Seq<Instruction>, pool: Seq<CPEntryV>, mi: MethodInformation) -> Result<
    (Seq<char>, TypeV, Seq<Instruction>),
    DecompileError,
>
    decreases st.len(), 0int, 0int,
{
    if st.len() == 0 {
        Err(DecompileError::StackUnderflow)
    } else {
        let i = st.last();
        let rest = st.drop_last();
        match i {
            // binary arithmetic, shifts and bitwise operators: left operand
            // text before right operand text
            Instruction::IAdd => rec_binary(rest, pool, mi, " + "@, TypeV::Int),
            Instruction::ISub => rec_binary(rest, pool, mi, " - "@, TypeV::Int),
            Instruction::IMul => rec_binary(rest, pool, mi, " * "@, TypeV::Int),
            Instruction::IDiv => rec_binary(rest, pool, mi, " / "@, TypeV::Int),
            Instruction::IRem => rec_binary(rest, pool, mi, " % "@, TypeV::Int),
            Instruction::IAnd => rec_binary(rest, pool, mi, " & "@, TypeV::Int),
            Instruction::IOr => rec_binary(rest, pool, mi, " | "@, TypeV::Int),
            Instruction::IXor => rec_binary(rest, pool, mi, " ^ "@, TypeV::Int),
            Instruction::IShl => rec_binary(rest, pool, mi, " << "@, TypeV::Int),
            Instruction::IShr => rec_binary(rest, pool, mi, " >> "@, TypeV::Int),
            Instruction::IUShr => rec_binary(rest, pool, mi, " >>> "@, TypeV::Int),
            Instruction::LAdd => rec_binary(rest, pool, mi, " + "@, TypeV::Long),
            Instruction::LSub => rec_binary(rest, pool, mi, " - "@, TypeV::Long),
            Instruction::LMul => rec_binary(rest, pool, mi, " * "@, TypeV::Long),
            Instruction::LDiv => rec_binary(rest, pool, mi, " / "@, TypeV::Long),
            Instruction::LRem => rec_binary(rest, pool, mi, " % "@, TypeV::Long),
            Instruction::LAnd => rec_binary(rest, pool, mi, " & "@, TypeV::Long),
            Instruction::LOr => rec_binary(rest, pool, mi, " | "@, TypeV::Long),
            Instruction::LXor => rec_binary(rest, pool, mi, " ^ "@, TypeV::Long),
            Instruction::LShl => rec_binary(rest, pool, mi, " << "@, TypeV::Long),
            Instruction::LShr => rec_binary(rest, pool, mi, " >> "@, TypeV::Long),
            Instruction::LUShr => rec_binary(rest, pool, mi, " >>> "@, TypeV::Long),
            Instruction::FAdd => rec_binary(rest, pool, mi, " + "@, TypeV::Float),
            Instruction::FSub => rec_binary(rest, pool, mi, " - "@, TypeV::Float),
            Instruction::FMul => rec_binary(rest, pool, mi, " * "@, TypeV::Float),
            Instruction::FDiv => rec_binary(rest, pool, mi, " / "@, TypeV::Float),
            Instruction::FRem => rec_binary(rest, pool, mi, " % "@, TypeV::Float),
            Instruction::DAdd => rec_binary(rest, pool, mi, " + "@, TypeV::Double),
            Instruction::DSub => rec_binary(rest, pool, mi, " - "@, TypeV::Double),
            Instruction::DMul => rec_binary(rest, pool, mi, " * "@, TypeV::Double),
            Instruction::DDiv => rec_binary(rest, pool, mi, " / "@, TypeV::Double),
            Instruction::DRem => rec_binary(rest, pool, mi, " % "@, TypeV::Double),
            // numeric conversions: cast to the opcode's declared target type
            Instruction::D2F => rec_prefix(rest, pool, mi, "(float) "@, TypeV::Float),
            Instruction::D2I => rec_prefix(rest, pool, mi, "(int) "@, TypeV::Int),
            Instruction::D2L => rec_prefix(rest, pool, mi, "(long) "@, TypeV::Long),
            Instruction::F2D => rec_prefix(rest, pool, mi, "(double) "@, TypeV::Double),
            Instruction::F2I => rec_prefix(rest, pool, mi, "(int) "@, TypeV::Int),
            Instruction::F2L => rec_prefix(rest, pool, mi, "(long) "@, TypeV::Long),
            Instruction::I2B => rec_prefix(rest, pool, mi, "(byte) "@, TypeV::Byte),
            Instruction::I2C => rec_prefix(rest, pool, mi, "(char) "@, TypeV::Char),
            Instruction::I2D => rec_prefix(rest, pool, mi, "(double) "@, TypeV::Double),
            Instruction::I2F => rec_prefix(rest, pool, mi, "(float) "@, TypeV::Float),
            Instruction::I2L => rec_prefix(rest, pool, mi, "(long) "@, TypeV::Long),
            Instruction::I2S => rec_prefix(rest, pool, mi, "(short) "@, TypeV::Short),
            Instruction::L2D => rec_prefix(rest, pool, mi, "(double) "@, TypeV::Double),
            Instruction::L2F => rec_prefix(rest, pool, mi, "(float) "@, TypeV::Float),
            Instruction::L2I => rec_prefix(rest, pool, mi, "(int) "@, TypeV::Int),
            // arithmetic negation
            Instruction::INeg => rec_prefix(rest, pool, mi, "-"@, TypeV::Int),
            Instruction::LNeg => rec_prefix(rest, pool, mi, "-"@, TypeV::Long),
            Instruction::FNeg => rec_prefix(rest, pool, mi, "-"@, TypeV::Float),
            Instruction::DNeg => rec_prefix(rest, pool, mi, "-"@, TypeV::Double),
            // array element reads; the reference type minus its array
            // dimensions types an `aaload`
            Instruction::AALoad => rec_array_load(rest, pool, mi, None),
            Instruction::BALoad => rec_array_load(rest, pool, mi, Some(TypeV::Byte)),
            Instruction::CALoad => rec_array_load(rest, pool, mi, Some(TypeV::Char)),
            Instruction::DALoad => rec_array_load(rest, pool, mi, Some(TypeV::Double)),
            Instruction::FALoad => rec_array_load(rest, pool, mi, Some(TypeV::Float)),
            Instruction::IALoad => rec_array_load(rest, pool, mi, Some(TypeV::Int)),
            Instruction::LALoad => rec_array_load(rest, pool, mi, Some(TypeV::Long)),
            Instruction::SALoad => rec_array_load(rest, pool, mi, Some(TypeV::Short)),
            // three-way compares: a named pseudo-call, no infix guess
            Instruction::DCmpG => rec_cmp(rest, pool, mi, "DCmpG"@),
            Instruction::DCmpL => rec_cmp(rest, pool, mi, "DCmpL"@),
            Instruction::FCmpG => rec_cmp(rest, pool, mi, "FCmpG"@),
            Instruction::FCmpL => rec_cmp(rest, pool, mi, "FCmpL"@),
            Instruction::LCmp => rec_cmp(rest, pool, mi, "LCmp"@),
            // constants
            Instruction::AConstNull => Ok(("null"@, TypeV::Unknown, rest)),
            Instruction::IConstM1 => Ok(("-1"@, TypeV::Int, rest)),
            Instruction::IConst0 => Ok(("0"@, TypeV::Int, rest)),
            Instruction::IConst1 => Ok(("1"@, TypeV::Int, rest)),
            Instruction::IConst2 => Ok(("2"@, TypeV::Int, rest)),
            Instruction::IConst3 => Ok(("3"@, TypeV::Int, rest)),
            Instruction::IConst4 => Ok(("4"@, TypeV::Int, rest)),
            Instruction::IConst5 => Ok(("5"@, TypeV::Int, rest)),
            Instruction::LConst0 => Ok(("0L"@, TypeV::Long, rest)),
            Instruction::LConst1 => Ok(("1L"@, TypeV::Long, rest)),
            Instruction::FConst0 => Ok(("0.0f"@, TypeV::Float, rest)),
            Instruction::FConst1 => Ok(("1.0f"@, TypeV::Float, rest)),
            Instruction::FConst2 => Ok(("2.0f"@, TypeV::Float, rest)),
            Instruction::DConst0 => Ok(("0.0"@, TypeV::Double, rest)),
            Instruction::DConst1 => Ok(("1.0"@, TypeV::Double, rest)),
            Instruction::BiPush(v) => Ok((spec_dec_int(v as int), TypeV::Byte, rest)),
            Instruction::SiPush(v) => Ok((spec_dec_int(v as int), TypeV::Short, rest)),
            // local loads: typed concretely for primitive loads, `Unknown`
            // for reference loads
            Instruction::ILoad(n) => Ok((spec_local_name(mi, n as nat), TypeV::Int, rest)),
            Instruction::ILoad0 => Ok((spec_local_name(mi, 0), TypeV::Int, rest)),
            Instruction::ILoad1 => Ok((spec_local_name(mi, 1), TypeV::Int, rest)),
            Instruction::ILoad2 => Ok((spec_local_name(mi, 2), TypeV::Int, rest)),
            Instruction::ILoad3 => Ok((spec_local_name(mi, 3), TypeV::Int, rest)),
            Instruction::LLoad(n) => Ok((spec_local_name(mi, n as nat), TypeV::Long, rest)),
            Instruction::LLoad0 => Ok((spec_local_name(mi, 0), TypeV::Long, rest)),
            Instruction::LLoad1 => Ok((spec_local_name(mi, 1), TypeV::Long, rest)),
            Instruction::LLoad2 => Ok((spec_local_name(mi, 2), TypeV::Long, rest)),
            Instruction::LLoad3 => Ok((spec_local_name(mi, 3), TypeV::Long, rest)),
            Instruction::FLoad(n) => Ok((spec_local_name(mi, n as nat), TypeV::Float, rest)),
            Instruction::FLoad0 => Ok((spec_local_name(mi, 0), TypeV::Float, rest)),
            Instruction::FLoad1 => Ok((spec_local_name(mi, 1), TypeV::Float, rest)),
            Instruction::FLoad2 => Ok((spec_local_name(mi, 2), TypeV::Float, rest)),
            Instruction::FLoad3 => Ok((spec_local_name(mi, 3), TypeV::Float, rest)),
            Instruction::DLoad(n) => Ok((spec_local_name(mi, n as nat), TypeV::Double, rest)),
            Instruction::DLoad0 => Ok((spec_local_name(mi, 0), TypeV::Double, rest)),
            Instruction::DLoad1 => Ok((spec_local_name(mi, 1), TypeV::Double, rest)),
            Instruction::DLoad2 => Ok((spec_local_name(mi, 2), TypeV::Double, rest)),
            Instruction::DLoad3 => Ok((spec_local_name(mi, 3), TypeV::Double, rest)),
            Instruction::ALoad(n) => Ok((spec_local_name(mi, n as nat), TypeV::Unknown, rest)),
            Instruction::ALoad0 => Ok((spec_local_name(mi, 0), TypeV::Unknown, rest)),
            Instruction::ALoad1 => Ok((spec_local_name(mi, 1), TypeV::Unknown, rest)),
            Instruction::ALoad2 => Ok((spec_local_name(mi, 2), TypeV::Unknown, rest)),
            Instruction::ALoad3 => Ok((spec_local_name(mi, 3), TypeV::Unknown, rest)),
            // a local increment in value position
            Instruction::IInc(n, c) => Ok(
                (
                    spec_local_name(mi, n as nat) + " + "@ + spec_dec_int(c as int),
                    TypeV::Int,
                    rest,
                ),
            ),
            // array length
            Instruction::ArrayLength => match rec_value(rest, pool, mi) {
                Ok((aref, _ty, s1)) => Ok((aref + ".length"@, TypeV::Int, s1)),
                Err(e) => Err(e),
            },
            // constant-pool loads
            Instruction::Ldc(b) => match spec_cp_value(pool, b as u16) {
                Ok((text, ty)) => Ok((text, ty, rest)),
                Err(e) => Err(e),
            },
            Instruction::LdcW(w) => match spec_cp_value(pool, w) {
                Ok((text, ty)) => Ok((text, ty, rest)),
                Err(e) => Err(e),
            },
            Instruction::Ldc2W(w) => match spec_cp_value_wide(pool, w) {
                Ok((text, ty)) => Ok((text, ty, rest)),
                Err(e) => Err(e),
            },
            // field reads: qualified by owning class (static) or by the
            // reconstructed receiver (instance)
            Instruction::GetStatic(idx) => match spec_field_ref(pool, idx) {
                Ok((class_name, name, descriptor)) => match spec_descriptor_type(descriptor) {
                    Ok(t) => Ok((class_name + "."@ + name, TypeV::Class(t), rest)),
                    Err(e) => Err(e),
                },
                Err(e) => Err(e),
            },
            Instruction::GetField(idx) => match rec_value(rest, pool, mi) {
                Ok((objectref, _oty, s1)) => match spec_field_ref(pool, idx) {
                    Ok((_class_name, name, descriptor)) => match spec_descriptor_type(
                        descriptor,
                    ) {
                        Ok(t) => Ok((objectref + "."@ + name, TypeV::Class(t), s1)),
                        Err(e) => Err(e),
                    },
                    Err(e) => Err(e),
                },
                Err(e) => Err(e),
            },
            // invocations in value position: a qualified-name placeholder
            Instruction::InvokeDynamic(idx, _, _) => match spec_method_ref(pool, idx) {
                Ok((class_name, name)) => Ok((class_name + "."@ + name, TypeV::Unknown, rest)),
                Err(e) => Err(e),
            },
            Instruction::InvokeInterface(idx, _, _) => match spec_method_ref(pool, idx) {
                Ok((class_name, name)) => Ok((class_name + "."@ + name, TypeV::Unknown, rest)),
                Err(e) => Err(e),
            },
            // type test
            Instruction::InstanceOf(idx) => match spec_class_name_at(pool, idx) {
                Ok(class_name) => match rec_value(rest, pool, mi) {
                    Ok((objectref, _oty, s1)) => Ok(
                        (objectref + " instanceof "@ + class_name, TypeV::Boolean, s1),
                    ),
                    Err(e) => Err(e),
                },
                Err(e) => Err(e),
            },
            // construction
            Instruction::New(idx) => match spec_class_name_at(pool, idx) {
                Ok(class_name) => Ok(
                    ("new "@ + class_name + "()"@, TypeV::Class(class_name), rest),
                ),
                Err(e) => Err(e),
            },
            Instruction::NewArray(code) => match spec_from_array_code(code) {
                Ok(ty) => match rec_value(rest, pool, mi) {
                    Ok((count, _cty, s1)) => Ok(
                        ("new "@ + spec_type_text(ty) + "["@ + count + "]"@, ty, s1),
                    ),
                    Err(e) => Err(e),
                },
                Err(e) => Err(e),
            },
            Instruction::ANewArray(idx) => match rec_value(rest, pool, mi) {
                Ok((count, _cty, s1)) => match spec_class_name_at(pool, idx) {
                    Ok(class_name) => {
                        let display = spec_dot_strip(class_name);
                        Ok(
                            (
                                "new "@ + display + "["@ + count + "]"@,
                                TypeV::Array(Box::new(TypeV::Class(display))),
                                s1,
                            ),
                        )
                    },
                    Err(e) => Err(e),
                },
                Err(e) => Err(e),
            },
            Instruction::MultiANewArray(idx, dimensions) => match spec_class_name_at(pool, idx) {
                Ok(descriptor) => match spec_descriptor_type(descriptor) {
                    Ok(display) => match rec_dims(rest, pool, mi, dimensions as nat) {
                        Ok((sizes, s1)) => Ok(
                            (
                                "new "@ + spec_subst_dims(display, sizes.reverse()),
                                TypeV::Class(display),
                                s1,
                            ),
                        ),
                        Err(e) => Err(e),
                    },
                    Err(e) => Err(e),
                },
                Err(e) => Err(e),
            },
            // everything else has no authored reconstruction rule
            _ => Err(DecompileError::UnsupportedOpcode),
        }
    }
}

/// A binary operator: right operand reconstructed first, then the left one,
/// joined with the operator between the left and right texts.
pub open spec fn rec_binary(
    st: Seq<Instruction>,
    pool: Seq<CPEntryV>,
    mi: MethodInformation,
    op: Seq<char>,
    ty: TypeV,
) -> Result<(Seq<char>, TypeV, Seq<Instruction>), DecompileError>
    decreases st.len(), 1int, 0int,
{
    match rec_value(st, pool, mi) {
        Ok((rhs, _rty, s1)) => if s1.len() < st.len() {
            match rec_value(s1, pool, mi) {
                Ok((lhs, _lty, s2)) => Ok((lhs + op + rhs, ty, s2)),
                Err(e) => Err(e),
            }
        } else {
            Err(DecompileError::StackUnderflow)
        },
        Err(e) => Err(e),
    }
}

/// A prefixed unary form: a cast or a negation.
pub open spec fn rec_prefix(
    st: Seq<Instruction>,
    pool: Seq<CPEntryV>,
    mi: MethodInformation,
    prefix: Seq<char>,
    ty: TypeV,
) -> Result<(Seq<char>, TypeV, Seq<Instruction>), DecompileError>
    decreases st.len(), 1int, 0int,
{
    match rec_value(st, pool, mi) {
        Ok((operand, _oty, s1)) => Ok((prefix + operand, ty, s1)),
        Err(e) => Err(e),
    }
}

/// An array element read: index popped first, then the reference. With no
/// given element type, the element type is the reference's type stripped of
/// its array dimensions.
pub open spec fn rec_array_load(
    st: Seq<Instruction>,
    pool: Seq<CPEntryV>,
    mi: MethodInformation,
    element: Option<TypeV>,
) -> Result<(Seq<char>, TypeV, Seq<Instruction>), DecompileError>
    decreases st.len(), 1int, 0int,
{
    match rec_value(st, pool, mi) {
        Ok((index, _ity, s1)) => if s1.len() < st.len() {
            match rec_value(s1, pool, mi) {
                Ok((aref, aty, s2)) => {
                    let text = aref + "["@ + index + "]"@;
                    match element {
                        Some(ty) => Ok((text, ty, s2)),
                        None => match spec_strip_array(aty) {
                            Ok(ty) => Ok((text, ty, s2)),
                            Err(e) => Err(e),
                        },
                    }
                },
                Err(e) => Err(e),
            }
        } else {
            Err(DecompileError::StackUnderflow)
        },
        Err(e) => Err(e),
    }
}

/// A three-way compare rendered as a named pseudo-call, the first-popped
/// operand listed first.
pub open spec fn rec_cmp(
    st: Seq<Instruction>,
    pool: Seq<CPEntryV>,
    mi: MethodInformation,
    name: Seq<char>,
) -> Result<(Seq<char>, TypeV, Seq<Instruction>), DecompileError>
    decreases st.len(), 1int, 0int,
{
    match rec_value(st, pool, mi) {
        Ok((first, _fty, s1)) => if s1.len() < st.len() {
            match rec_value(s1, pool, mi) {
                Ok((second, _sty, s2)) => Ok(
                    (name + " ("@ + first + ", "@ + second + ")"@, TypeV::Int, s2),
                ),
                Err(e) => Err(e),
            }
        } else {
            Err(DecompileError::StackUnderflow)
        },
        Err(e) => Err(e),
    }
}

/// Pops the most recently pushed pending instruction; an empty stack is a
/// fatal underflow.
fn pop_instruction(stack: &mut Vec<Instruction>) -> (r: Result<Instruction, DecompileError>)
    ensures
        match r {
            Ok(i) => old(stack)@.len() > 0 && i == old(stack)@.last()
                && final(stack)@ == old(stack)@.drop_last(),
            Err(e) => old(stack)@.len() == 0 && e == DecompileError::StackUnderflow
                && final(stack)@ == old(stack)@,
        },
{
    match stack.pop() {
        Some(i) => {
            assert(final(stack)@ =~= old(stack)@.drop_last());
            Ok(i)
        },
        None => Err(DecompileError::StackUnderflow),
    }
}

/// The class name, field name and descriptor behind a `FieldRef` entry.
pub(crate) fn field_ref_parts(constant_pool: &ConstantPool, index: u16) -> (r: Result<
    (String, String, String),
    DecompileError,
>)
    ensures
        match r {
            Ok((class_name, name, descriptor)) => spec_field_ref(constant_pool@, index) == Ok::<
                _,
                DecompileError,
            >((class_name@, name@, descriptor@)),
            Err(e) => spec_field_ref(constant_pool@, index) == Err::<
                (Seq<char>, Seq<char>, Seq<char>),
                _,
            >(e),
        },
{
    let (class_index, name_and_type_index) = match constant_pool.get_index(index) {
        Ok(CPIndexType::FieldRef { class_index, name_and_type_index }) => (
            *class_index,
            *name_and_type_index,
        ),
        Ok(_) => {
            return Err(DecompileError::PoolKindMismatch);
        },
        Err(e) => {
            return Err(e);
        },
    };
    let class_name = match constant_pool.class_name_at(class_index) {
        Ok(s) => s,
        Err(e) => {
            return Err(e);
        },
    };
    let (name_index, descriptor_index) = match constant_pool.get_index(name_and_type_index) {
        Ok(CPIndexType::NameAndType { name_index, descriptor_index }) => (
            *name_index,
            *descriptor_index,
        ),
        Ok(_) => {
            return Err(DecompileError::PoolKindMismatch);
        },
        Err(e) => {
            return Err(e);
        },
    };
    let name = match constant_pool.utf8_at(name_index) {
        Ok(s) => s,
        Err(e) => {
            return Err(e);
        },
    };
    let descriptor = match constant_pool.utf8_at(descriptor_index) {
        Ok(s) => s,
        Err(e) => {
            return Err(e);
        },
    };
    Ok((class_name, name, descriptor))
}

/// The class name and method name behind a `MethodRef` entry; the entry's
/// descriptor must resolve too.
fn method_ref_parts(constant_pool: &ConstantPool, index: u16) -> (r: Result<
    (String, String),
    DecompileError,
>)
    ensures
        match r {
            Ok((class_name, name)) => spec_method_ref(constant_pool@, index) == Ok::<
                _,
                DecompileError,
            >((class_name@, name@)),
            Err(e) => spec_method_ref(constant_pool@, index) == Err::<(Seq<char>, Seq<char>), _>(e),
        },
{
    let (class_index, name_and_type_index) = match constant_pool.get_index(index) {
        Ok(CPIndexType::MethodRef { class_index, name_and_type_index }) => (
            *class_index,
            *name_and_type_index,
        ),
        Ok(_) => {
            return Err(DecompileError::PoolKindMismatch);
        },
        Err(e) => {
            return Err(e);
        },
    };
    let class_name = match constant_pool.class_name_at(class_index) {
        Ok(s) => s,
        Err(e) => {
            return Err(e);
        },
    };
    let (name_index, descriptor_index) = match constant_pool.get_index(name_and_type_index) {
        Ok(CPIndexType::NameAndType { name_index, descriptor_index }) => (
            *name_index,
            *descriptor_index,
        ),
        Ok(_) => {
            return Err(DecompileError::PoolKindMismatch);
        },
        Err(e) => {
            return Err(e);
        },
    };
    let name = match constant_pool.utf8_at(name_index) {
        Ok(s) => s,
        Err(e) => {
            return Err(e);
        },
    };
    match constant_pool.utf8_at(descriptor_index) {
        Ok(_) => {},
        Err(e) => {
            return Err(e);
        },
    };
    Ok((class_name, name))
}

/// A qualified `class.member` text.
fn qualified_name(class_name: &String, name: &String) -> (r: Vec<char>)
    ensures
        r@ == class_name@ + "."@ + name@,
{
    let mut text = chars_from_str(class_name.as_str());
    push_str_chars(&mut text, ".");
    push_str_chars(&mut text, name.as_str());
    text
}

/// Decodes the loadable one-slot constant at `index`.
fn cp_value_chars(constant_pool: &ConstantPool, index: u16) -> (r: Result<
    (Vec<char>, Type),
    DecompileError,
>)
    ensures
        match r {
            Ok((text, ty)) => spec_cp_value(constant_pool@, index) == Ok::<_, DecompileError>(
                (text@, ty@),
            ),
            Err(e) => spec_cp_value(constant_pool@, index) == Err::<(Seq<char>, TypeV), _>(e),
        },
{
    match constant_pool.get_index(index) {
        Ok(CPIndexType::Class(name_index)) => match constant_pool.utf8_at(*name_index) {
            Ok(name) => {
                let text = chars_from_str(name.as_str());
                Ok((text, Type::Class(name)))
            },
            Err(e) => Err(e),
        },
        Ok(CPIndexType::Float(bits)) => {
            let mut text: Vec<char> = Vec::new();
            push_dec_u64(&mut text, *bits as u64);
            Ok((text, Type::Float))
        },
        Ok(CPIndexType::Integer(v)) => {
            let mut text: Vec<char> = Vec::new();
            push_dec_u64(&mut text, *v as u64);
            Ok((text, Type::Int))
        },
        Ok(CPIndexType::String(text_index)) => match constant_pool.utf8_at(*text_index) {
            Ok(value) => {
                let mut text: Vec<char> = Vec::new();
                text.push('"');
                push_str_chars(&mut text, value.as_str());
                text.push('"');
                assert(text@ =~= seq!['"'] + value@ + seq!['"']);
                Ok((text, Type::Class("java.lang.String".to_owned())))
            },
            Err(e) => Err(e),
        },
        Ok(_) => Err(DecompileError::PoolKindMismatch),
        Err(e) => Err(e),
    }
}

/// Decodes the loadable two-slot constant at `index`.
fn cp_value_wide_chars(constant_pool: &ConstantPool, index: u16) -> (r: Result<
    (Vec<char>, Type),
    DecompileError,
>)
    ensures
        match r {
            Ok((text, ty)) => spec_cp_value_wide(constant_pool@, index) == Ok::<_, DecompileError>(
                (text@, ty@),
            ),
            Err(e) => spec_cp_value_wide(constant_pool@, index) == Err::<(Seq<char>, TypeV), _>(e),
        },
{
    match constant_pool.get_index(index) {
        Ok(CPIndexType::Double(bits)) => {
            let mut text: Vec<char> = Vec::new();
            push_dec_u64(&mut text, *bits);
            Ok((text, Type::Double))
        },
        Ok(CPIndexType::Long(v)) => {
            let mut text: Vec<char> = Vec::new();
            push_dec_u64(&mut text, *v);
            text.push('L');
            proof {
                reveal_strlit("L");
                assert(text@ =~= spec_dec_nat(*v as nat) + "L"@);
            }
            Ok((text, Type::Long))
        },
        Ok(_) => Err(DecompileError::PoolKindMismatch),
        Err(e) => Err(e),
    }
}

proof fn lemma_subst_one_at(s: Seq<char>, size: Seq<char>, i: int)
    requires
        0 <= i,
        i + 1 < s.len(),
        s[i] == '[',
        s[i + 1] == ']',
        forall|j: int| 0 <= j < i ==> !(s[j] == '[' && #[trigger] s[j + 1] == ']'),
    ensures
        spec_subst_one(s, size) == s.take(i) + seq!['['] + size + seq![']'] + s.skip(i + 2),
    decreases i,
{
    if i == 0 {
        assert(s.take(0) =~= Seq::<char>::empty());
        assert(spec_subst_one(s, size) =~= s.take(0) + seq!['['] + size + seq![']'] + s.skip(2));
    } else {
        let d = s.drop_first();
        assert(d[i - 1] == s[i] && d[i] == s[i + 1]);
        assert(forall|j: int| 0 <= j < i - 1 ==> !(d[j] == '[' && #[trigger] d[j + 1] == ']'));
        lemma_subst_one_at(d, size, i - 1);
        assert(s.take(i) =~= seq![s[0]] + d.take(i - 1));
        assert(s.skip(i + 2) =~= d.skip(i + 1));
        assert(spec_subst_one(s, size) =~= s.take(i) + seq!['['] + size + seq![']'] + s.skip(
            i + 2,
        ));
    }
}

proof fn lemma_subst_one_none(s: Seq<char>, size: Seq<char>)
    requires
        forall|j: int| 0 <= j && j + 1 < s.len() ==> !(s[j] == '[' && #[trigger] s[j + 1] == ']'),
    ensures
        spec_subst_one(s, size) == s,
    decreases s.len(),
{
    if s.len() < 2 {
    } else {
        let d = s.drop_first();
        assert(forall|j: int|
            0 <= j && j + 1 < d.len() ==> !(d[j] == '[' && #[trigger] d[j + 1] == ']'));
        lemma_subst_one_none(d, size);
        assert(seq![s[0]] + d =~= s);
    }
}

/// `name` with its first `[]` pair filled with `size`.
fn subst_one(name: &Vec<char>, size: &Vec<char>) -> (r: Vec<char>)
    ensures
        r@ == spec_subst_one(name@, size@),
{
    let n = name.len();
    let mut i: usize = 0;
    while n > 0 && i < n - 1
        invariant
            n == name@.len(),
            i <= n,
            forall|j: int| 0 <= j < i ==> !(name@[j] == '[' && #[trigger] name@[j + 1] == ']'),
        decreases n - i,
    {
        if name[i] == '[' && name[i + 1] == ']' {
            let mut out: Vec<char> = Vec::new();
            let mut k: usize = 0;
            while k < i
                invariant
                    k <= i,
                    i + 1 < name@.len(),
                    n == name@.len(),
                    out@ == name@.take(k as int),
                decreases i - k,
            {
                out.push(name[k]);
                assert(out@ =~= name@.take(k as int + 1));
                k = k + 1;
            }
            out.push('[');
            push_chars(&mut out, size);
            out.push(']');
            let mut k2: usize = i + 2;
            let ghost mid = out@;
            while k2 < n
                invariant
                    i + 2 <= k2 <= n,
                    n == name@.len(),
                    out@ == mid + name@.subrange(i as int + 2, k2 as int),
                decreases n - k2,
            {
                out.push(name[k2]);
                assert(out@ =~= mid + name@.subrange(i as int + 2, k2 as int + 1));
                k2 = k2 + 1;
            }
            proof {
                lemma_subst_one_at(name@, size@, i as int);
                assert(name@.subrange(i as int + 2, name@.len() as int) =~= name@.skip(
                    i as int + 2,
                ));
                assert(out@ =~= name@.take(i as int) + seq!['['] + size@ + seq![']'] + name@.skip(
                    i as int + 2,
                ));
            }
            return out;
        }
        i = i + 1;
    }
    proof {
        lemma_subst_one_none(name@, size@);
    }
    let mut out: Vec<char> = Vec::new();
    push_chars(&mut out, name);
    out
}

/// `name` with its `[]` pairs filled from `sizes`, taken last first:
/// the most-significant dimension is substituted first.
fn subst_dims_rev(name: Vec<char>, sizes: &Vec<Vec<char>>) -> (r: Vec<char>)
    ensures
        r@ == spec_subst_dims(name@, sizes.deep_view().reverse()),
{
    let ghost name0 = name@;
    let ghost all = sizes.deep_view();
    let mut cur = name;
    let mut k: usize = sizes.len();
    proof {
        assert(all.take(k as int) =~= all);
    }
    while k > 0
        invariant
            k <= sizes@.len(),
            all == sizes.deep_view(),
            all.len() == sizes@.len(),
            spec_subst_dims(name0, all.reverse()) == spec_subst_dims(
                cur@,
                all.take(k as int).reverse(),
            ),
        decreases k,
    {
        proof {
            assert(all.take(k as int).reverse().len() == k);
            assert(all.take(k as int).reverse()[0] == all[k - 1]);
            assert(all.take(k as int).reverse().drop_first() =~= all.take(
                k as int - 1,
            ).reverse());
            assert(all[k - 1] == sizes@[k - 1].deep_view());
            assert(sizes@[k - 1].deep_view() =~= sizes@[k - 1]@);
        }
        let next = subst_one(&cur, &sizes[k - 1]);
        cur = next;
        k = k - 1;
    }
    proof {
        assert(all.take(0).reverse() =~= Seq::<Seq<char>>::empty());
    }
    cur
}

/// `d` dimension sizes popped off the stack, in pop order.
pub open spec fn rec_dims(
    st: Seq<Instruction>,
    pool: Seq<CPEntryV>,
    mi: MethodInformation,
    d: nat,
) -> Result<(Seq<Seq<char>>, Seq<Instruction>), DecompileError>
    decreases st.len(), 1int, d,
{
    if d == 0 {
        Ok((Seq::empty(), st))
    } else {
        match rec_value(st, pool, mi) {
            Ok((size, _ty, s1)) => if s1.len() < st.len() {
                match rec_dims(s1, pool, mi, (d - 1) as nat) {
                    Ok((sizes, s2)) => Ok((seq![size] + sizes, s2)),
                    Err(e) => Err(e),
                }
            } else {
                Err(DecompileError::StackUnderflow)
            },
            Err(e) => Err(e),
        }
    }
}

/// True of the binary arithmetic, shift and bitwise opcodes.
pub open spec fn spec_is_binary_instr(i: Instruction) -> bool {
    match i {
        Instruction::IAdd
        | Instruction::ISub
        | Instruction::IMul
        | Instruction::IDiv
        | Instruction::IRem
        | Instruction::IAnd
        | Instruction::IOr
        | Instruction::IXor
        | Instruction::IShl
        | Instruction::IShr
        | Instruction::IUShr
        | Instruction::LAdd
        | Instruction::LSub
        | Instruction::LMul
        | Instruction::LDiv
        | Instruction::LRem
        | Instruction::LAnd
        | Instruction::LOr
        | Instruction::LXor
        | Instruction::LShl
        | Instruction::LShr
        | Instruction::LUShr
        | Instruction::FAdd
        | Instruction::FSub
        | Instruction::FMul
        | Instruction::FDiv
        | Instruction::FRem
        | Instruction::DAdd
        | Instruction::DSub
        | Instruction::DMul
        | Instruction::DDiv
        | Instruction::DRem => true,
        _ => false,
    }
}

/// True of the numeric-conversion and negation opcodes.
pub open spec fn spec_is_conversion_instr(i: Instruction) -> bool {
    match i {
        Instruction::D2F
        | Instruction::D2I
        | Instruction::D2L
        | Instruction::F2D
        | Instruction::F2I
        | Instruction::F2L
        | Instruction::I2B
        | Instruction::I2C
        | Instruction::I2D
        | Instruction::I2F
        | Instruction::I2L
        | Instruction::I2S
        | Instruction::L2D
        | Instruction::L2F
        | Instruction::L2I
        | Instruction::INeg
        | Instruction::LNeg
        | Instruction::FNeg
        | Instruction::DNeg => true,
        _ => false,
    }
}

/// True of the opcodes that produce a value without popping: constants,
/// immediate pushes, local loads, and the local increment.
pub open spec fn spec_is_leaf_instr(i: Instruction) -> bool {
    match i {
        Instruction::AConstNull
        | Instruction::BiPush(_)
        | Instruction::SiPush(_)
        | Instruction::IInc(_, _)
        | Instruction::IConstM1
        | Instruction::IConst0
        | Instruction::IConst1
        | Instruction::IConst2
        | Instruction::IConst3
        | Instruction::IConst4
        | Instruction::IConst5
        | Instruction::LConst0
        | Instruction::LConst1
        | Instruction::FConst0
        | Instruction::FConst1
        | Instruction::FConst2
        | Instruction::DConst0
        | Instruction::DConst1
        | Instruction::ILoad(_)
        | Instruction::ILoad0
        | Instruction::ILoad1
        | Instruction::ILoad2
        | Instruction::ILoad3
        | Instruction::LLoad(_)
        | Instruction::LLoad0
        | Instruction::LLoad1
        | Instruction::LLoad2
        | Instruction::LLoad3
        | Instruction::FLoad(_)
        | Instruction::FLoad0
        | Instruction::FLoad1
        | Instruction::FLoad2
        | Instruction::FLoad3
        | Instruction::DLoad(_)
        | Instruction::DLoad0
        | Instruction::DLoad1
        | Instruction::DLoad2
        | Instruction::DLoad3
        | Instruction::ALoad(_)
        | Instruction::ALoad0
        | Instruction::ALoad1
        | Instruction::ALoad2
        | Instruction::ALoad3 => true,
        _ => false,
    }
}

/// True of the array-read and three-way-compare opcodes.
pub open spec fn spec_is_indexed_instr(i: Instruction) -> bool {
    match i {
        Instruction::AALoad
        | Instruction::BALoad
        | Instruction::CALoad
        | Instruction::DALoad
        | Instruction::FALoad
        | Instruction::IALoad
        | Instruction::LALoad
        | Instruction::SALoad
        | Instruction::DCmpG
        | Instruction::DCmpL
        | Instruction::FCmpG
        | Instruction::FCmpL
        | Instruction::LCmp => true,
        _ => false,
    }
}

/// True of the opcodes that read a value through the constant pool.
pub open spec fn spec_is_pool_instr(i: Instruction) -> bool {
    match i {
        Instruction::ArrayLength
        | Instruction::Ldc(_)
        | Instruction::LdcW(_)
        | Instruction::Ldc2W(_)
        | Instruction::GetStatic(_)
        | Instruction::GetField(_) => true,
        _ => false,
    }
}

/// True of the invocation-placeholder, type-test and construction opcodes.
pub open spec fn spec_is_construct_instr(i: Instruction) -> bool {
    match i {
        Instruction::InvokeDynamic(_, _, _)
        | Instruction::InvokeInterface(_, _, _)
        | Instruction::InstanceOf(_)
        | Instruction::New(_)
        | Instruction::NewArray(_)
        | Instruction::ANewArray(_)
        | Instruction::MultiANewArray(_, _) => true,
        _ => false,
    }
}

/// Reconstructs a popped binary-operator instruction.
#[verifier::rlimit(100)]
fn binary_instr_value(
    top: Instruction,
    instructions_stack: &mut Vec<Instruction>,
    constant_pool: &ConstantPool,
    method_information: &MethodInformation,
) -> (r: Result<(Vec<char>, Type), DecompileError>)
    requires
        spec_is_binary_instr(top),
    ensures
        match r {
            Ok((text, ty)) => final(instructions_stack)@.len() <= old(instructions_stack)@.len()
                && rec_value(old(instructions_stack)@.push(top), constant_pool@, *method_information)
                == Ok::<_, DecompileError>((text@, ty@, final(instructions_stack)@)),
            Err(e) => rec_value(old(instructions_stack)@.push(top), constant_pool@, *method_information)
                == Err::<(Seq<char>, TypeV, Seq<Instruction>), _>(e),
        },
    decreases instructions_stack@.len(), 2int, 0int,
{
    proof {
        let st0 = old(instructions_stack)@.push(top);
        assert(st0.drop_last() =~= old(instructions_stack)@);
    }

    match top {
        Instruction::IAdd => binary_value(instructions_stack, constant_pool, method_information, " + ", Type::Int),
        Instruction::ISub => binary_value(instructions_stack, constant_pool, method_information, " - ", Type::Int),
        Instruction::IMul => binary_value(instructions_stack, constant_pool, method_information, " * ", Type::Int),
        Instruction::IDiv => binary_value(instructions_stack, constant_pool, method_information, " / ", Type::Int),
        Instruction::IRem => binary_value(instructions_stack, constant_pool, method_information, " % ", Type::Int),
        Instruction::IAnd => binary_value(instructions_stack, constant_pool, method_information, " & ", Type::Int),
        Instruction::IOr => binary_value(instructions_stack, constant_pool, method_information, " | ", Type::Int),
        Instruction::IXor => binary_value(instructions_stack, constant_pool, method_information, " ^ ", Type::Int),
        Instruction::IShl => binary_value(instructions_stack, constant_pool, method_information, " << ", Type::Int),
        Instruction::IShr => binary_value(instructions_stack, constant_pool, method_information, " >> ", Type::Int),
        Instruction::IUShr => binary_value(instructions_stack, constant_pool, method_information, " >>> ", Type::Int),
        Instruction::LAdd => binary_value(instructions_stack, constant_pool, method_information, " + ", Type::Long),
        Instruction::LSub => binary_value(instructions_stack, constant_pool, method_information, " - ", Type::Long),
        Instruction::LMul => binary_value(instructions_stack, constant_pool, method_information, " * ", Type::Long),
        Instruction::LDiv => binary_value(instructions_stack, constant_pool, method_information, " / ", Type::Long),
        Instruction::LRem => binary_value(instructions_stack, constant_pool, method_information, " % ", Type::Long),
        Instruction::LAnd => binary_value(instructions_stack, constant_pool, method_information, " & ", Type::Long),
        Instruction::LOr => binary_value(instructions_stack, constant_pool, method_information, " | ", Type::Long),
        Instruction::LXor => binary_value(instructions_stack, constant_pool, method_information, " ^ ", Type::Long),
        Instruction::LShl => binary_value(instructions_stack, constant_pool, method_information, " << ", Type::Long),
        Instruction::LShr => binary_value(instructions_stack, constant_pool, method_information, " >> ", Type::Long),
        Instruction::LUShr => binary_value(instructions_stack, constant_pool, method_information, " >>> ", Type::Long),
        Instruction::FAdd => binary_value(instructions_stack, constant_pool, method_information, " + ", Type::Float),
        Instruction::FSub => binary_value(instructions_stack, constant_pool, method_information, " - ", Type::Float),
        Instruction::FMul => binary_value(instructions_stack, constant_pool, method_information, " * ", Type::Float),
        Instruction::FDiv => binary_value(instructions_stack, constant_pool, method_information, " / ", Type::Float),
        Instruction::FRem => binary_value(instructions_stack, constant_pool, method_information, " % ", Type::Float),
        Instruction::DAdd => binary_value(instructions_stack, constant_pool, method_information, " + ", Type::Double),
        Instruction::DSub => binary_value(instructions_stack, constant_pool, method_information, " - ", Type::Double),
        Instruction::DMul => binary_value(instructions_stack, constant_pool, method_information, " * ", Type::Double),
        Instruction::DDiv => binary_value(instructions_stack, constant_pool, method_information, " / ", Type::Double),
        Instruction::DRem => binary_value(instructions_stack, constant_pool, method_information, " % ", Type::Double),
        _ => {
            proof {
                assert(false);
            }
            Err(DecompileError::UnsupportedOpcode)
        },
    }
}

/// Reconstructs a popped conversion or negation instruction.
#[verifier::rlimit(100)]
fn conversion_instr_value(
    top: Instruction,
    instructions_stack: &mut Vec<Instruction>,
    constant_pool: &ConstantPool,
    method_information: &MethodInformation,
) -> (r: Result<(Vec<char>, Type), DecompileError>)
    requires
        spec_is_conversion_instr(top),
    ensures
        match r {
            Ok((text, ty)) => final(instructions_stack)@.len() <= old(instructions_stack)@.len()
                && rec_value(old(instructions_stack)@.push(top), constant_pool@, *method_information)
                == Ok::<_, DecompileError>((text@, ty@, final(instructions_stack)@)),
            Err(e) => rec_value(old(instructions_stack)@.push(top), constant_pool@, *method_information)
                == Err::<(Seq<char>, TypeV, Seq<Instruction>), _>(e),
        },
    decreases instructions_stack@.len(), 2int, 0int,
{
    proof {
        let st0 = old(instructions_stack)@.push(top);
        assert(st0.drop_last() =~= old(instructions_stack)@);
    }

    match top {
        Instruction::D2F => prefix_value(instructions_stack, constant_pool, method_information, "(float) ", Type::Float),
        Instruction::D2I => prefix_value(instructions_stack, constant_pool, method_information, "(int) ", Type::Int),
        Instruction::D2L => prefix_value(instructions_stack, constant_pool, method_information, "(long) ", Type::Long),
        Instruction::F2D => prefix_value(instructions_stack, constant_pool, method_information, "(double) ", Type::Double),
        Instruction::F2I => prefix_value(instructions_stack, constant_pool, method_information, "(int) ", Type::Int),
        Instruction::F2L => prefix_value(instructions_stack, constant_pool, method_information, "(long) ", Type::Long),
        Instruction::I2B => prefix_value(instructions_stack, constant_pool, method_information, "(byte) ", Type::Byte),
        Instruction::I2C => prefix_value(instructions_stack, constant_pool, method_information, "(char) ", Type::Char),
        Instruction::I2D => prefix_value(instructions_stack, constant_pool, method_information, "(double) ", Type::Double),
        Instruction::I2F => prefix_value(instructions_stack, constant_pool, method_information, "(float) ", Type::Float),
        Instruction::I2L => prefix_value(instructions_stack, constant_pool, method_information, "(long) ", Type::Long),
        Instruction::I2S => prefix_value(instructions_stack, constant_pool, method_information, "(short) ", Type::Short),
        Instruction::L2D => prefix_value(instructions_stack, constant_pool, method_information, "(double) ", Type::Double),
        Instruction::L2F => prefix_value(instructions_stack, constant_pool, method_information, "(float) ", Type::Float),
        Instruction::L2I => prefix_value(instructions_stack, constant_pool, method_information, "(int) ", Type::Int),
        Instruction::INeg => prefix_value(instructions_stack, constant_pool, method_information, "-", Type::Int),
        Instruction::LNeg => prefix_value(instructions_stack, constant_pool, method_information, "-", Type::Long),
        Instruction::FNeg => prefix_value(instructions_stack, constant_pool, method_information, "-", Type::Float),
        Instruction::DNeg => prefix_value(instructions_stack, constant_pool, method_information, "-", Type::Double),
        _ => {
            proof {
                assert(false);
            }
            Err(DecompileError::UnsupportedOpcode)
        },
    }
}

/// Reconstructs a popped constant, immediate push, local load, or local
/// increment: these consume nothing further from the stack.
#[verifier::rlimit(100)]
fn leaf_instr_value(
    top: Instruction,
    instructions_stack: &mut Vec<Instruction>,
    constant_pool: &ConstantPool,
    method_information: &MethodInformation,
) -> (r: Result<(Vec<char>, Type), DecompileError>)
    requires
        spec_is_leaf_instr(top),
    ensures
        match r {
            Ok((text, ty)) => final(instructions_stack)@.len() <= old(instructions_stack)@.len()
                && rec_value(old(instructions_stack)@.push(top), constant_pool@, *method_information)
                == Ok::<_, DecompileError>((text@, ty@, final(instructions_stack)@)),
            Err(e) => rec_value(old(instructions_stack)@.push(top), constant_pool@, *method_information)
                == Err::<(Seq<char>, TypeV, Seq<Instruction>), _>(e),
        },
    decreases instructions_stack@.len(), 2int, 0int,
{
    proof {
        let st0 = old(instructions_stack)@.push(top);
        assert(st0.drop_last() =~= old(instructions_stack)@);
    }

    match top {
        Instruction::AConstNull => Ok((chars_from_str("null"), Type::Unknown)),
        Instruction::IConstM1 => Ok((chars_from_str("-1"), Type::Int)),
        Instruction::IConst0 => Ok((chars_from_str("0"), Type::Int)),
        Instruction::IConst1 => Ok((chars_from_str("1"), Type::Int)),
        Instruction::IConst2 => Ok((chars_from_str("2"), Type::Int)),
        Instruction::IConst3 => Ok((chars_from_str("3"), Type::Int)),
        Instruction::IConst4 => Ok((chars_from_str("4"), Type::Int)),
        Instruction::IConst5 => Ok((chars_from_str("5"), Type::Int)),
        Instruction::LConst0 => Ok((chars_from_str("0L"), Type::Long)),
        Instruction::LConst1 => Ok((chars_from_str("1L"), Type::Long)),
        Instruction::FConst0 => Ok((chars_from_str("0.0f"), Type::Float)),
        Instruction::FConst1 => Ok((chars_from_str("1.0f"), Type::Float)),
        Instruction::FConst2 => Ok((chars_from_str("2.0f"), Type::Float)),
        Instruction::DConst0 => Ok((chars_from_str("0.0"), Type::Double)),
        Instruction::DConst1 => Ok((chars_from_str("1.0"), Type::Double)),
        Instruction::BiPush(v) => {
            let mut text: Vec<char> = Vec::new();
            push_dec_i64(&mut text, v as i64);
            Ok((text, Type::Byte))
        },
        Instruction::SiPush(v) => {
            let mut text: Vec<char> = Vec::new();
            push_dec_i64(&mut text, v as i64);
            Ok((text, Type::Short))
        },
        Instruction::IInc(n, c) => {
            let mut text = local_chars(method_information, n as u16);
            push_str_chars(&mut text, " + ");
            push_dec_i64(&mut text, c as i64);
            Ok((text, Type::Int))
        },
        Instruction::ILoad(n) => Ok((local_chars(method_information, n as u16), Type::Int)),
        Instruction::ILoad0 => Ok((local_chars(method_information, 0), Type::Int)),
        Instruction::ILoad1 => Ok((local_chars(method_information, 1), Type::Int)),
        Instruction::ILoad2 => Ok((local_chars(method_information, 2), Type::Int)),
        Instruction::ILoad3 => Ok((local_chars(method_information, 3), Type::Int)),
        Instruction::LLoad(n) => Ok((local_chars(method_information, n as u16), Type::Long)),
        Instruction::LLoad0 => Ok((local_chars(method_information, 0), Type::Long)),
        Instruction::LLoad1 => Ok((local_chars(method_information, 1), Type::Long)),
        Instruction::LLoad2 => Ok((local_chars(method_information, 2), Type::Long)),
        Instruction::LLoad3 => Ok((local_chars(method_information, 3), Type::Long)),
        Instruction::FLoad(n) => Ok((local_chars(method_information, n as u16), Type::Float)),
        Instruction::FLoad0 => Ok((local_chars(method_information, 0), Type::Float)),
        Instruction::FLoad1 => Ok((local_chars(method_information, 1), Type::Float)),
        Instruction::FLoad2 => Ok((local_chars(method_information, 2), Type::Float)),
        Instruction::FLoad3 => Ok((local_chars(method_information, 3), Type::Float)),
        Instruction::DLoad(n) => Ok((local_chars(method_information, n as u16), Type::Double)),
        Instruction::DLoad0 => Ok((local_chars(method_information, 0), Type::Double)),
        Instruction::DLoad1 => Ok((local_chars(method_information, 1), Type::Double)),
        Instruction::DLoad2 => Ok((local_chars(method_information, 2), Type::Double)),
        Instruction::DLoad3 => Ok((local_chars(method_information, 3), Type::Double)),
        Instruction::ALoad(n) => Ok((local_chars(method_information, n as u16), Type::Unknown)),
        Instruction::ALoad0 => Ok((local_chars(method_information, 0), Type::Unknown)),
        Instruction::ALoad1 => Ok((local_chars(method_information, 1), Type::Unknown)),
        Instruction::ALoad2 => Ok((local_chars(method_information, 2), Type::Unknown)),
        Instruction::ALoad3 => Ok((local_chars(method_information, 3), Type::Unknown)),
        _ => {
            proof {
                assert(false);
            }
            Err(DecompileError::UnsupportedOpcode)
        },
    }
}

/// Reconstructs a popped array read or three-way compare.
#[verifier::rlimit(100)]
fn indexed_instr_value(
    top: Instruction,
    instructions_stack: &mut Vec<Instruction>,
    constant_pool: &ConstantPool,
    method_information: &MethodInformation,
) -> (r: Result<(Vec<char>, Type), DecompileError>)
    requires
        spec_is_indexed_instr(top),
    ensures
        match r {
            Ok((text, ty)) => final(instructions_stack)@.len() <= old(instructions_stack)@.len()
                && rec_value(old(instructions_stack)@.push(top), constant_pool@, *method_information)
                == Ok::<_, DecompileError>((text@, ty@, final(instructions_stack)@)),
            Err(e) => rec_value(old(instructions_stack)@.push(top), constant_pool@, *method_information)
                == Err::<(Seq<char>, TypeV, Seq<Instruction>), _>(e),
        },
    decreases instructions_stack@.len(), 2int, 0int,
{
    proof {
        let st0 = old(instructions_stack)@.push(top);
        assert(st0.drop_last() =~= old(instructions_stack)@);
    }

    match top {
        Instruction::AALoad => array_load_value(instructions_stack, constant_pool, method_information, None),
        Instruction::BALoad => array_load_value(instructions_stack, constant_pool, method_information, Some(Type::Byte)),
        Instruction::CALoad => array_load_value(instructions_stack, constant_pool, method_information, Some(Type::Char)),
        Instruction::DALoad => array_load_value(instructions_stack, constant_pool, method_information, Some(Type::Double)),
        Instruction::FALoad => array_load_value(instructions_stack, constant_pool, method_information, Some(Type::Float)),
        Instruction::IALoad => array_load_value(instructions_stack, constant_pool, method_information, Some(Type::Int)),
        Instruction::LALoad => array_load_value(instructions_stack, constant_pool, method_information, Some(Type::Long)),
        Instruction::SALoad => array_load_value(instructions_stack, constant_pool, method_information, Some(Type::Short)),
        Instruction::DCmpG => cmp_value(instructions_stack, constant_pool, method_information, "DCmpG"),
        Instruction::DCmpL => cmp_value(instructions_stack, constant_pool, method_information, "DCmpL"),
        Instruction::FCmpG => cmp_value(instructions_stack, constant_pool, method_information, "FCmpG"),
        Instruction::FCmpL => cmp_value(instructions_stack, constant_pool, method_information, "FCmpL"),
        Instruction::LCmp => cmp_value(instructions_stack, constant_pool, method_information, "LCmp"),
        _ => {
            proof {
                assert(false);
            }
            Err(DecompileError::UnsupportedOpcode)
        },
    }
}

/// Reconstructs a popped constant-pool load, array length, or field read.
#[verifier::rlimit(100)]
fn pool_instr_value(
    top: Instruction,
    instructions_stack: &mut Vec<Instruction>,
    constant_pool: &ConstantPool,
    method_information: &MethodInformation,
) -> (r: Result<(Vec<char>, Type), DecompileError>)
    requires
        spec_is_pool_instr(top),
    ensures
        match r {
            Ok((text, ty)) => final(instructions_stack)@.len() <= old(instructions_stack)@.len()
                && rec_value(old(instructions_stack)@.push(top), constant_pool@, *method_information)
                == Ok::<_, DecompileError>((text@, ty@, final(instructions_stack)@)),
            Err(e) => rec_value(old(instructions_stack)@.push(top), constant_pool@, *method_information)
                == Err::<(Seq<char>, TypeV, Seq<Instruction>), _>(e),
        },
    decreases instructions_stack@.len(), 2int, 0int,
{
    proof {
        let st0 = old(instructions_stack)@.push(top);
        assert(st0.drop_last() =~= old(instructions_stack)@);
    }

    match top {
        Instruction::ArrayLength => {
            let (aref, _aty) = match value_chars(instructions_stack, constant_pool, method_information) {
                Ok(v) => v,
                Err(e) => {
                    return Err(e);
                },
            };
            let mut text = aref;
            push_str_chars(&mut text, ".length");
            Ok((text, Type::Int))
        },
        Instruction::Ldc(b) => cp_value_chars(constant_pool, b as u16),
        Instruction::LdcW(w) => cp_value_chars(constant_pool, w),
        Instruction::Ldc2W(w) => cp_value_wide_chars(constant_pool, w),
        Instruction::GetStatic(idx) => {
            let (class_name, name, descriptor) = match field_ref_parts(constant_pool, idx) {
                Ok(v) => v,
                Err(e) => {
                    return Err(e);
                },
            };
            let d = chars_from_str(descriptor.as_str());
            proof {
                assert(d@.skip(0) =~= d@);
            }
            let display = match descriptor_chars(&d, 0) {
                Ok(t) => t,
                Err(e) => {
                    return Err(e);
                },
            };
            let text = qualified_name(&class_name, &name);
            Ok((text, Type::Class(string_from_chars(display))))
        },
        Instruction::GetField(idx) => {
            let (objectref, _oty) = match value_chars(instructions_stack, constant_pool, method_information) {
                Ok(v) => v,
                Err(e) => {
                    return Err(e);
                },
            };
            let (_class_name, name, descriptor) = match field_ref_parts(constant_pool, idx) {
                Ok(v) => v,
                Err(e) => {
                    return Err(e);
                },
            };
            let d = chars_from_str(descriptor.as_str());
            proof {
                assert(d@.skip(0) =~= d@);
            }
            let display = match descriptor_chars(&d, 0) {
                Ok(t) => t,
                Err(e) => {
                    return Err(e);
                },
            };
            let mut text = objectref;
            push_str_chars(&mut text, ".");
            push_str_chars(&mut text, name.as_str());
            Ok((text, Type::Class(string_from_chars(display))))
        },
        _ => {
            proof {
                assert(false);
            }
            Err(DecompileError::UnsupportedOpcode)
        },
    }
}

/// Reconstructs a popped invocation placeholder, type test, or construction
/// form.
#[verifier::rlimit(100)]
fn construct_instr_value(
    top: Instruction,
    instructions_stack: &mut Vec<Instruction>,
    constant_pool: &ConstantPool,
    method_information: &MethodInformation,
) -> (r: Result<(Vec<char>, Type), DecompileError>)
    requires
        spec_is_construct_instr(top),
    ensures
        match r {
            Ok((text, ty)) => final(instructions_stack)@.len() <= old(instructions_stack)@.len()
                && rec_value(old(instructions_stack)@.push(top), constant_pool@, *method_information)
                == Ok::<_, DecompileError>((text@, ty@, final(instructions_stack)@)),
            Err(e) => rec_value(old(instructions_stack)@.push(top), constant_pool@, *method_information)
                == Err::<(Seq<char>, TypeV, Seq<Instruction>), _>(e),
        },
    decreases instructions_stack@.len(), 2int, 0int,
{
    proof {
        let st0 = old(instructions_stack)@.push(top);
        assert(st0.drop_last() =~= old(instructions_stack)@);
    }

    match top {
        Instruction::InvokeDynamic(idx, _, _) => {
            let (class_name, name) = match method_ref_parts(constant_pool, idx) {
                Ok(v) => v,
                Err(e) => {
                    return Err(e);
                },
            };
            Ok((qualified_name(&class_name, &name), Type::Unknown))
        },
        Instruction::InvokeInterface(idx, _, _) => {
            let (class_name, name) = match method_ref_parts(constant_pool, idx) {
                Ok(v) => v,
                Err(e) => {
                    return Err(e);
                },
            };
            Ok((qualified_name(&class_name, &name), Type::Unknown))
        },
        Instruction::InstanceOf(idx) => {
            let class_name = match constant_pool.class_name_at(idx) {
                Ok(s) => s,
                Err(e) => {
                    return Err(e);
                },
            };
            let (objectref, _oty) = match value_chars(instructions_stack, constant_pool, method_information) {
                Ok(v) => v,
                Err(e) => {
                    return Err(e);
                },
            };
            let mut text = objectref;
            push_str_chars(&mut text, " instanceof ");
            push_str_chars(&mut text, class_name.as_str());
            Ok((text, Type::Boolean))
        },
        Instruction::New(idx) => {
            let class_name = match constant_pool.class_name_at(idx) {
                Ok(s) => s,
                Err(e) => {
                    return Err(e);
                },
            };
            let mut text = chars_from_str("new ");
            push_str_chars(&mut text, class_name.as_str());
            push_str_chars(&mut text, "()");
            Ok((text, Type::Class(class_name)))
        },
        Instruction::NewArray(code) => {
            let ty = match Type::from_array_code(code) {
                Ok(t) => t,
                Err(e) => {
                    return Err(e);
                },
            };
            let (count, _cty) = match value_chars(instructions_stack, constant_pool, method_information) {
                Ok(v) => v,
                Err(e) => {
                    return Err(e);
                },
            };
            let mut text = chars_from_str("new ");
            push_type_text(&mut text, &ty);
            push_str_chars(&mut text, "[");
            push_chars(&mut text, &count);
            push_str_chars(&mut text, "]");
            Ok((text, ty))
        },
        Instruction::ANewArray(idx) => {
            let (count, _cty) = match value_chars(instructions_stack, constant_pool, method_information) {
                Ok(v) => v,
                Err(e) => {
                    return Err(e);
                },
            };
            let class_name = match constant_pool.class_name_at(idx) {
                Ok(s) => s,
                Err(e) => {
                    return Err(e);
                },
            };
            let name_chars = chars_from_str(class_name.as_str());
            proof {
                assert(name_chars@.skip(0) =~= name_chars@);
            }
            let mut display: Vec<char> = Vec::new();
            push_dot_strip(&mut display, &name_chars, 0);
            let mut text = chars_from_str("new ");
            push_chars(&mut text, &display);
            push_str_chars(&mut text, "[");
            push_chars(&mut text, &count);
            push_str_chars(&mut text, "]");
            Ok((text, class_array(string_from_chars(display))))
        },
        Instruction::MultiANewArray(idx, dimensions) => {
            let descriptor = match constant_pool.class_name_at(idx) {
                Ok(s) => s,
                Err(e) => {
                    return Err(e);
                },
            };
            let d = chars_from_str(descriptor.as_str());
            proof {
                assert(d@.skip(0) =~= d@);
            }
            let display = match descriptor_chars(&d, 0) {
                Ok(t) => t,
                Err(e) => {
                    return Err(e);
                },
            };
            let sizes = match dims_value(instructions_stack, constant_pool, method_information, dimensions) {
                Ok(v) => v,
                Err(e) => {
                    return Err(e);
                },
            };
            let mut display_copy: Vec<char> = Vec::new();
            push_chars(&mut display_copy, &display);
            let substituted = subst_dims_rev(display, &sizes);
            let mut text = chars_from_str("new ");
            push_chars(&mut text, &substituted);
            Ok((text, Type::Class(string_from_chars(display_copy))))
        },
        _ => {
            proof {
                assert(false);
            }
            Err(DecompileError::UnsupportedOpcode)
        },
    }
}

/// Reconstructs the most recently pushed pending value as characters.
#[verifier::rlimit(100)]
pub(crate) fn value_chars(
    instructions_stack: &mut Vec<Instruction>,
    constant_pool: &ConstantPool,
    method_information: &MethodInformation,
) -> (r: Result<(Vec<char>, Type), DecompileError>)
    ensures
        match r {
            Ok((text, ty)) => final(instructions_stack)@.len() < old(instructions_stack)@.len()
                && rec_value(old(instructions_stack)@, constant_pool@, *method_information)
                == Ok::<_, DecompileError>((text@, ty@, final(instructions_stack)@)),
            Err(e) => rec_value(old(instructions_stack)@, constant_pool@, *method_information)
                == Err::<(Seq<char>, TypeV, Seq<Instruction>), _>(e),
        },
    decreases instructions_stack@.len(), 0int, 0int,
{
    let ghost st0 = instructions_stack@;
    let top = match pop_instruction(instructions_stack) {
        Ok(i) => i,
        Err(e) => {
            return Err(e);
        },
    };
    proof {
        assert(st0 =~= instructions_stack@.push(top));
    }
    match top {
        Instruction::IAdd
        | Instruction::ISub
        | Instruction::IMul
        | Instruction::IDiv
        | Instruction::IRem
        | Instruction::IAnd
        | Instruction::IOr
        | Instruction::IXor
        | Instruction::IShl
        | Instruction::IShr
        | Instruction::IUShr
        | Instruction::LAdd
        | Instruction::LSub
        | Instruction::LMul
        | Instruction::LDiv
        | Instruction::LRem
        | Instruction::LAnd
        | Instruction::LOr
        | Instruction::LXor
        | Instruction::LShl
        | Instruction::LShr
        | Instruction::LUShr
        | Instruction::FAdd
        | Instruction::FSub
        | Instruction::FMul
        | Instruction::FDiv
        | Instruction::FRem
        | Instruction::DAdd
        | Instruction::DSub
        | Instruction::DMul
        | Instruction::DDiv
        | Instruction::DRem => binary_instr_value(top, instructions_stack, constant_pool, method_information),
        Instruction::D2F
        | Instruction::D2I
        | Instruction::D2L
        | Instruction::F2D
        | Instruction::F2I
        | Instruction::F2L
        | Instruction::I2B
        | Instruction::I2C
        | Instruction::I2D
        | Instruction::I2F
        | Instruction::I2L
        | Instruction::I2S
        | Instruction::L2D
        | Instruction::L2F
        | Instruction::L2I
        | Instruction::INeg
        | Instruction::LNeg
        | Instruction::FNeg
        | Instruction::DNeg => conversion_instr_value(top, instructions_stack, constant_pool, method_information),
        Instruction::AConstNull
        | Instruction::IConstM1
        | Instruction::IConst0
        | Instruction::IConst1
        | Instruction::IConst2
        | Instruction::IConst3
        | Instruction::IConst4
        | Instruction::IConst5
        | Instruction::LConst0
        | Instruction::LConst1
        | Instruction::FConst0
        | Instruction::FConst1
        | Instruction::FConst2
        | Instruction::DConst0
        | Instruction::DConst1
        | Instruction::ILoad(_)
        | Instruction::ILoad0
        | Instruction::ILoad1
        | Instruction::ILoad2
        | Instruction::ILoad3
        | Instruction::LLoad(_)
        | Instruction::LLoad0
        | Instruction::LLoad1
        | Instruction::LLoad2
        | Instruction::LLoad3
        | Instruction::FLoad(_)
        | Instruction::FLoad0
        | Instruction::FLoad1
        | Instruction::FLoad2
        | Instruction::FLoad3
        | Instruction::DLoad(_)
        | Instruction::DLoad0
        | Instruction::DLoad1
        | Instruction::DLoad2
        | Instruction::DLoad3
        | Instruction::ALoad(_)
        | Instruction::ALoad0
        | Instruction::ALoad1
        | Instruction::ALoad2
        | Instruction::ALoad3
        | Instruction::BiPush(_)
        | Instruction::SiPush(_)
        | Instruction::IInc(_, _) => leaf_instr_value(top, instructions_stack, constant_pool, method_information),
        Instruction::AALoad
        | Instruction::BALoad
        | Instruction::CALoad
        | Instruction::DALoad
        | Instruction::FALoad
        | Instruction::IALoad
        | Instruction::LALoad
        | Instruction::SALoad
        | Instruction::DCmpG
        | Instruction::DCmpL
        | Instruction::FCmpG
        | Instruction::FCmpL
        | Instruction::LCmp => indexed_instr_value(top, instructions_stack, constant_pool, method_information),
        Instruction::ArrayLength
        | Instruction::Ldc(_)
        | Instruction::LdcW(_)
        | Instruction::Ldc2W(_)
        | Instruction::GetStatic(_)
        | Instruction::GetField(_) => pool_instr_value(
            top,
            instructions_stack,
            constant_pool,
            method_information,
        ),
        Instruction::InvokeDynamic(_, _, _)
        | Instruction::InvokeInterface(_, _, _)
        | Instruction::InstanceOf(_)
        | Instruction::New(_)
        | Instruction::NewArray(_)
        | Instruction::ANewArray(_)
        | Instruction::MultiANewArray(_, _) => construct_instr_value(
            top,
            instructions_stack,
            constant_pool,
            method_information,
        ),
        _ => Err(DecompileError::UnsupportedOpcode),
    }
}

/// The name of a local slot as characters.
fn local_chars(method_information: &MethodInformation, slot: u16) -> (r: Vec<char>)
    ensures
        r@ == spec_local_name(*method_information, slot as nat),
{
    let mut out: Vec<char> = Vec::new();
    push_local_name(&mut out, method_information, slot);
    out
}

/// Reconstructs `lhs OP rhs`: the right-hand operand is popped first.
fn binary_value(
    instructions_stack: &mut Vec<Instruction>,
    constant_pool: &ConstantPool,
    method_information: &MethodInformation,
    op: &str,
    ty: Type,
) -> (r: Result<(Vec<char>, Type), DecompileError>)
    ensures
        match r {
            Ok((text, rty)) => rty@ == ty@ && final(instructions_stack)@.len() < old(
                instructions_stack,
            )@.len() && rec_binary(
                old(instructions_stack)@,
                constant_pool@,
                *method_information,
                op@,
                ty@,
            ) == Ok::<_, DecompileError>((text@, ty@, final(instructions_stack)@)),
            Err(e) => rec_binary(
                old(instructions_stack)@,
                constant_pool@,
                *method_information,
                op@,
                ty@,
            ) == Err::<(Seq<char>, TypeV, Seq<Instruction>), _>(e),
        },
    decreases instructions_stack@.len(), 1int, 0int,
{
    let (rhs, _rty) = match value_chars(instructions_stack, constant_pool, method_information) {
        Ok(v) => v,
        Err(e) => {
            return Err(e);
        },
    };
    let (lhs, _lty) = match value_chars(instructions_stack, constant_pool, method_information) {
        Ok(v) => v,
        Err(e) => {
            return Err(e);
        },
    };
    let mut text = lhs;
    push_str_chars(&mut text, op);
    let mut rhs_tail = rhs;
    text.append(&mut rhs_tail);
    Ok((text, ty))
}

/// Reconstructs a prefixed unary form: a cast or a negation.
fn prefix_value(
    instructions_stack: &mut Vec<Instruction>,
    constant_pool: &ConstantPool,
    method_information: &MethodInformation,
    prefix: &str,
    ty: Type,
) -> (r: Result<(Vec<char>, Type), DecompileError>)
    ensures
        match r {
            Ok((text, rty)) => rty@ == ty@ && final(instructions_stack)@.len() < old(
                instructions_stack,
            )@.len() && rec_prefix(
                old(instructions_stack)@,
                constant_pool@,
                *method_information,
                prefix@,
                ty@,
            ) == Ok::<_, DecompileError>((text@, ty@, final(instructions_stack)@)),
            Err(e) => rec_prefix(
                old(instructions_stack)@,
                constant_pool@,
                *method_information,
                prefix@,
                ty@,
            ) == Err::<(Seq<char>, TypeV, Seq<Instruction>), _>(e),
        },
    decreases instructions_stack@.len(), 1int, 0int,
{
    let (operand, _oty) = match value_chars(instructions_stack, constant_pool, method_information) {
        Ok(v) => v,
        Err(e) => {
            return Err(e);
        },
    };
    let mut text = chars_from_str(prefix);
    let mut operand_tail = operand;
    text.append(&mut operand_tail);
    Ok((text, ty))
}

/// Reconstructs `aref[index]`: the index is popped first, then the
/// reference. With no given element type, the reference's type stripped of
/// its array dimensions types the element.
fn array_load_value(
    instructions_stack: &mut Vec<Instruction>,
    constant_pool: &ConstantPool,
    method_information: &MethodInformation,
    element: Option<Type>,
) -> (r: Result<(Vec<char>, Type), DecompileError>)
    ensures
        match r {
            Ok((text, rty)) => final(instructions_stack)@.len() < old(instructions_stack)@.len()
                && rec_array_load(
                old(instructions_stack)@,
                constant_pool@,
                *method_information,
                element.deep_view(),
            ) == Ok::<_, DecompileError>((text@, rty@, final(instructions_stack)@)),
            Err(e) => rec_array_load(
                old(instructions_stack)@,
                constant_pool@,
                *method_information,
                element.deep_view(),
            ) == Err::<(Seq<char>, TypeV, Seq<Instruction>), _>(e),
        },
    decreases instructions_stack@.len(), 1int, 0int,
{
    let (index, _ity) = match value_chars(instructions_stack, constant_pool, method_information) {
        Ok(v) => v,
        Err(e) => {
            return Err(e);
        },
    };
    let (aref, aty) = match value_chars(instructions_stack, constant_pool, method_information) {
        Ok(v) => v,
        Err(e) => {
            return Err(e);
        },
    };
    let mut text = aref;
    push_str_chars(&mut text, "[");
    push_chars(&mut text, &index);
    push_str_chars(&mut text, "]");
    match element {
        Some(ty) => Ok((text, ty)),
        None => match get_array_type(aty) {
            Ok(ty) => Ok((text, ty)),
            Err(e) => Err(e),
        },
    }
}

/// Reconstructs a three-way compare as a named pseudo-call.
fn cmp_value(
    instructions_stack: &mut Vec<Instruction>,
    constant_pool: &ConstantPool,
    method_information: &MethodInformation,
    name: &str,
) -> (r: Result<(Vec<char>, Type), DecompileError>)
    ensures
        match r {
            Ok((text, rty)) => rty@ == TypeV::Int && final(instructions_stack)@.len() < old(
                instructions_stack,
            )@.len() && rec_cmp(
                old(instructions_stack)@,
                constant_pool@,
                *method_information,
                name@,
            ) == Ok::<_, DecompileError>((text@, TypeV::Int, final(instructions_stack)@)),
            Err(e) => rec_cmp(
                old(instructions_stack)@,
                constant_pool@,
                *method_information,
                name@,
            ) == Err::<(Seq<char>, TypeV, Seq<Instruction>), _>(e),
        },
    decreases instructions_stack@.len(), 1int, 0int,
{
    let (first, _fty) = match value_chars(instructions_stack, constant_pool, method_information) {
        Ok(v) => v,
        Err(e) => {
            return Err(e);
        },
    };
    let (second, _sty) = match value_chars(instructions_stack, constant_pool, method_information) {
        Ok(v) => v,
        Err(e) => {
            return Err(e);
        },
    };
    let mut text = chars_from_str(name);
    push_str_chars(&mut text, " (");
    push_chars(&mut text, &first);
    push_str_chars(&mut text, ", ");
    push_chars(&mut text, &second);
    push_str_chars(&mut text, ")");
    Ok((text, Type::Int))
}

/// Pops `d` dimension sizes off the stack, in pop order.
fn dims_value(
    instructions_stack: &mut Vec<Instruction>,
    constant_pool: &ConstantPool,
    method_information: &MethodInformation,
    d: u8,
) -> (r: Result<Vec<Vec<char>>, DecompileError>)
    ensures
        match r {
            Ok(sizes) => final(instructions_stack)@.len() <= old(instructions_stack)@.len()
                && rec_dims(
                old(instructions_stack)@,
                constant_pool@,
                *method_information,
                d as nat,
            ) == Ok::<_, DecompileError>((sizes.deep_view(), final(instructions_stack)@)),
            Err(e) => rec_dims(
                old(instructions_stack)@,
                constant_pool@,
                *method_information,
                d as nat,
            ) == Err::<(Seq<Seq<char>>, Seq<Instruction>), _>(e),
        },
    decreases instructions_stack@.len(), 1int, d as int,
{
    if d == 0 {
        let sizes: Vec<Vec<char>> = Vec::new();
        proof {
            assert(sizes.deep_view() =~= Seq::<Seq<char>>::empty());
        }
        Ok(sizes)
    } else {
        let (size, _ty) = match value_chars(instructions_stack, constant_pool, method_information) {
            Ok(v) => v,
            Err(e) => {
                return Err(e);
            },
        };
        let rest = match dims_value(instructions_stack, constant_pool, method_information, d - 1) {
            Ok(v) => v,
            Err(e) => {
                return Err(e);
            },
        };
        let ghost rest_view = rest.deep_view();
        let ghost rest_seq = rest@;
        let ghost size_view = size@;
        let mut sizes: Vec<Vec<char>> = Vec::new();
        sizes.push(size);
        let mut rest_tail = rest;
        sizes.append(&mut rest_tail);
        proof {
            let dv = sizes.deep_view();
            assert(sizes@.len() == 1 + rest_seq.len());
            assert forall|i: int| 0 <= i < dv.len() implies dv[i] == (seq![size_view]
                + rest_view)[i] by {
                if i == 0 {
                    assert(sizes@[0].deep_view() =~= size_view);
                } else {
                    assert(sizes@[i] == rest_seq[i - 1]);
                    assert(rest_view[i - 1] == rest_seq[i - 1].deep_view());
                }
            }
            assert(dv =~= seq![size_view] + rest_view);
        }
        Ok(sizes)
    }
}

/// Reconstructs the most recently pushed pending value: the expression text
/// and its inferred static type. The meaning of the call is `rec_value`
/// applied to the stack as it was before the call.
pub fn get_value(
    instructions_stack: &mut Vec<Instruction>,
    constant_pool: &ConstantPool,
    method_information: &MethodInformation,
) -> (r: Result<(String, Type), DecompileError>)
    ensures
        match r {
            Ok((text, ty)) => final(instructions_stack)@.len() < old(instructions_stack)@.len()
                && rec_value(old(instructions_stack)@, constant_pool@, *method_information)
                == Ok::<_, DecompileError>((text@, ty@, final(instructions_stack)@)),
            Err(e) => rec_value(old(instructions_stack)@, constant_pool@, *method_information)
                == Err::<(Seq<char>, TypeV, Seq<Instruction>), _>(e),
        },
{
    match value_chars(instructions_stack, constant_pool, method_information) {
        Ok((text, ty)) => Ok((string_from_chars(text), ty)),
        Err(e) => Err(e),
    }
}

/// Decodes the loadable constant at a 1-based pool index, as `ldc` and
/// `ldc_w` do. Lookups are read-only and deterministic: the pool is not
/// changed, and equal pools and indexes decode to equal text.
pub fn get_cp_value(index: u16, constant_pool: &ConstantPool) -> (r: Result<
    (String, Type),
    DecompileError,
>)
    ensures
        match r {
            Ok((text, ty)) => spec_cp_value(constant_pool@, index) == Ok::<_, DecompileError>(
                (text@, ty@),
            ),
            Err(e) => spec_cp_value(constant_pool@, index) == Err::<(Seq<char>, TypeV), _>(e),
        },
{
    match cp_value_chars(constant_pool, index) {
        Ok((text, ty)) => Ok((string_from_chars(text), ty)),
        Err(e) => Err(e),
    }
}

} // verus!
