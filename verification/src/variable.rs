//! Local-variable naming: a pure policy from the method's shape and slot
//! number, plus the per-method table of slots already declared in output.

use vstd::prelude::*;

use crate::jtype::{Type, TypeV};
use crate::numfmt::{push_dec_u64, spec_dec_nat};
use crate::text::push_str_chars;

verus! {

/// The per-method shape that drives all slot-naming decisions.
#[derive(Clone, Copy, PartialEq, Eq, Structural, Debug)]
pub struct MethodInformation {
    pub is_static: bool,
    pub arg_count: u8,
}

/// A local slot already declared in the generated output, with the type it
/// was declared at.
pub struct Variable {
    pub ty: Type,
    pub var_num: u16,
}

/// The model of a declared variable.
pub ghost struct VariableV {
    pub ty: TypeV,
    pub var_num: u16,
}

impl View for Variable {
    type V = VariableV;

    open spec fn view(&self) -> VariableV {
        VariableV { ty: self.ty@, var_num: self.var_num }
    }
}

impl DeepView for Variable {
    type V = VariableV;

    open spec fn deep_view(&self) -> VariableV {
        self.view()
    }
}

/// The name of a local slot: slots below `arg_count` are arguments (`this`
/// for slot zero of an instance method, `arg<slot>` otherwise); slots at or
/// past `arg_count` are locals named `var<slot>`.
pub open spec fn spec_local_name(mi: MethodInformation, slot: nat) -> Seq<char> {
    if slot < mi.arg_count {
        if !mi.is_static && slot == 0 {
            "this"@
        } else {
            "arg"@ + spec_dec_nat(slot)
        }
    } else {
        "var"@ + spec_dec_nat(slot)
    }
}

/// True when some declared variable already occupies `slot`.
pub open spec fn spec_table_has(table: Seq<VariableV>, slot: u16) -> bool {
    exists|k: int| 0 <= k < table.len() && table[k].var_num == slot
}

/// Appends the name of `slot` to `out`.
pub fn push_local_name(out: &mut Vec<char>, mi: &MethodInformation, slot: u16)
    ensures
        final(out)@ == old(out)@ + spec_local_name(*mi, slot as nat),
{
    if (slot as u16) < (mi.arg_count as u16) {
        if !mi.is_static && slot == 0 {
            push_str_chars(out, "this");
        } else {
            push_str_chars(out, "arg");
            push_dec_u64(out, slot as u64);
        }
    } else {
        push_str_chars(out, "var");
        push_dec_u64(out, slot as u64);
    }
}

/// True when some declared variable already occupies `slot`.
pub fn table_has(table: &Vec<Variable>, slot: u16) -> (r: bool)
    ensures
        r == spec_table_has(table.deep_view(), slot),
{
    let mut k: usize = 0;
    while k < table.len()
        invariant
            0 <= k <= table@.len(),
            table.deep_view().len() == table@.len(),
            forall|j: int| 0 <= j < k ==> table.deep_view()[j].var_num != slot,
        decreases table@.len() - k,
    {
        assert(table.deep_view()[k as int] == table@[k as int]@);
        if table[k].var_num == slot {
            return true;
        }
        k = k + 1;
    }
    false
}

} // verus!
