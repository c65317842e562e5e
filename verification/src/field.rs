//! Field declarations: access keywords, the decoded field type, and the
//! field's name, one line per field.

use vstd::prelude::*;

use crate::classfile::{ClassFile, FieldInfo, MemberInfoV};
use crate::constant_pool::{spec_utf8_at, CPEntryV, ConstantPool};
use crate::error::DecompileError;
use crate::text::{chars_from_str, push_str_chars, string_from_chars};
use crate::value::{descriptor_chars, spec_descriptor_type};

verus! {

/// The access-keyword prefix of a field declaration, in the rendering
/// order: visibility, synthetic marker, `static`, `final`, `volatile`,
/// `transient`.
pub open spec fn spec_field_flags(flags: u16) -> Seq<char> {
    (if flags & 0x0001u16 != 0 {
        "public "@
    } else if flags & 0x0002u16 != 0 {
        "private "@
    } else if flags & 0x0004u16 != 0 {
        "protected "@
    } else {
        Seq::<char>::empty()
    }) + (if flags & 0x1000u16 != 0 {
        "/* synthetic */ "@
    } else {
        Seq::<char>::empty()
    }) + (if flags & 0x0008u16 != 0 {
        "static "@
    } else {
        Seq::<char>::empty()
    }) + (if flags & 0x0010u16 != 0 {
        "final "@
    } else {
        Seq::<char>::empty()
    }) + (if flags & 0x0040u16 != 0 {
        "volatile "@
    } else {
        Seq::<char>::empty()
    }) + (if flags & 0x0080u16 != 0 {
        "transient "@
    } else {
        Seq::<char>::empty()
    })
}

/// One field's declaration: keywords, decoded type, a space, the name.
pub open spec fn spec_field_signature(
    pool: Seq<CPEntryV>,
    flags: u16,
    name_index: u16,
    descriptor_index: u16,
) -> Result<Seq<char>, DecompileError> {
    match spec_utf8_at(pool, descriptor_index) {
        Ok(descriptor) => match spec_descriptor_type(descriptor) {
            Ok(ty) => match spec_utf8_at(pool, name_index) {
                Ok(name) => Ok(spec_field_flags(flags) + ty + " "@ + name),
                Err(e) => Err(e),
            },
            Err(e) => Err(e),
        },
        Err(e) => Err(e),
    }
}

/// The field lines of a class body from table position `j` on: a tab, the
/// signature, `;` and a newline for each field.
pub open spec fn spec_fields_from(pool: Seq<CPEntryV>, fields: Seq<MemberInfoV>, j: int) -> Result<
    Seq<char>,
    DecompileError,
>
    decreases fields.len() - j,
{
    if j < 0 || j >= fields.len() {
        Ok(Seq::<char>::empty())
    } else {
        match spec_field_signature(
            pool,
            fields[j].access_flags,
            fields[j].name_index,
            fields[j].descriptor_index,
        ) {
            Ok(sig) => match spec_fields_from(pool, fields, j + 1) {
                Ok(text2) => Ok("\t"@ + sig + ";\n"@ + text2),
                Err(e) => Err(e),
            },
            Err(e) => Err(e),
        }
    }
}

/// The text of the `Utf8` entry at `index`; any other kind there is a
/// mismatch against the caller's expectation.
pub fn get_constant_value(index: u16, constant_pool: &ConstantPool) -> (r: Result<
    String,
    DecompileError,
>)
    ensures
        match r {
            Ok(s) => spec_utf8_at(constant_pool@, index) == Ok::<_, DecompileError>(s@),
            Err(e) => spec_utf8_at(constant_pool@, index) == Err::<Seq<char>, _>(e),
        },
{
    constant_pool.utf8_at(index)
}

/// One field's declaration: access keywords, the decoded display type, and
/// the field's name.
pub fn generate_field_signature(field: &FieldInfo, constant_pool: &ConstantPool) -> (r: Result<
    String,
    DecompileError,
>)
    ensures
        match r {
            Ok(s) => spec_field_signature(
                constant_pool@,
                field.access_flags,
                field.name_index,
                field.descriptor_index,
            ) == Ok::<_, DecompileError>(s@),
            Err(e) => spec_field_signature(
                constant_pool@,
                field.access_flags,
                field.name_index,
                field.descriptor_index,
            ) == Err::<Seq<char>, _>(e),
        },
{
    let descriptor = match constant_pool.utf8_at(field.descriptor_index) {
        Ok(s) => s,
        Err(e) => {
            return Err(e);
        },
    };
    let d = chars_from_str(descriptor.as_str());
    proof {
        assert(d@.skip(0) =~= d@);
    }
    let ty = match descriptor_chars(&d, 0) {
        Ok(t) => t,
        Err(e) => {
            return Err(e);
        },
    };
    let name = match constant_pool.utf8_at(field.name_index) {
        Ok(s) => s,
        Err(e) => {
            return Err(e);
        },
    };
    let flags = field.access_flags;
    let mut out: Vec<char> = Vec::new();
    if flags & 0x0001u16 != 0 {
        push_str_chars(&mut out, "public ");
    } else if flags & 0x0002u16 != 0 {
        push_str_chars(&mut out, "private ");
    } else if flags & 0x0004u16 != 0 {
        push_str_chars(&mut out, "protected ");
    }
    if flags & 0x1000u16 != 0 {
        push_str_chars(&mut out, "/* synthetic */ ");
    }
    if flags & 0x0008u16 != 0 {
        push_str_chars(&mut out, "static ");
    }
    if flags & 0x0010u16 != 0 {
        push_str_chars(&mut out, "final ");
    }
    if flags & 0x0040u16 != 0 {
        push_str_chars(&mut out, "volatile ");
    }
    if flags & 0x0080u16 != 0 {
        push_str_chars(&mut out, "transient ");
    }
    proof {
        assert(out@ =~= spec_field_flags(flags));
    }
    let mut ty_tail = ty;
    out.append(&mut ty_tail);
    push_str_chars(&mut out, " ");
    push_str_chars(&mut out, name.as_str());
    Ok(string_from_chars(out))
}

/// The field section of a class body: each field on its own indented line,
/// in table order. The table's declared count selects how many entries are
/// rendered.
pub fn decompile_fields(class_file: &ClassFile) -> (r: Result<String, DecompileError>)
    requires
        class_file.fields.field_count as int <= class_file.fields.fields@.len(),
    ensures
        match r {
            Ok(s) => spec_fields_from(
                class_file.constant_pool@,
                class_file.fields.fields.deep_view().take(class_file.fields.field_count as int),
                0,
            ) == Ok::<_, DecompileError>(s@),
            Err(e) => spec_fields_from(
                class_file.constant_pool@,
                class_file.fields.fields.deep_view().take(class_file.fields.field_count as int),
                0,
            ) == Err::<Seq<char>, _>(e),
        },
{
    let ghost pool = class_file.constant_pool@;
    let ghost picked = class_file.fields.fields.deep_view().take(
        class_file.fields.field_count as int,
    );
    let mut out: Vec<char> = Vec::new();
    let n: usize = class_file.fields.field_count as usize;
    let mut j: usize = 0;
    while j < n
        invariant
            j <= n,
            n == class_file.fields.field_count as usize,
            n <= class_file.fields.fields@.len(),
            pool == class_file.constant_pool@,
            picked == class_file.fields.fields.deep_view().take(n as int),
            picked.len() == n,
            match spec_fields_from(pool, picked, j as int) {
                Ok(text2) => spec_fields_from(pool, picked, 0) == Ok::<_, DecompileError>(
                    out@ + text2,
                ),
                Err(e) => spec_fields_from(pool, picked, 0) == Err::<Seq<char>, _>(e),
            },
        decreases n - j,
    {
        let ghost out0 = out@;
        let field = &class_file.fields.fields[j];
        proof {
            assert(class_file.fields.fields.deep_view()[j as int] == field.deep_view());
            assert(picked[j as int] == field@);
        }
        let sig = match generate_field_signature(field, &class_file.constant_pool) {
            Ok(s) => s,
            Err(e) => {
                proof {
                    assert(spec_fields_from(pool, picked, j as int) == Err::<Seq<char>, _>(e));
                }
                return Err(e);
            },
        };
        push_str_chars(&mut out, "\t");
        push_str_chars(&mut out, sig.as_str());
        push_str_chars(&mut out, ";\n");
        proof {
            let one = "\t"@ + sig@ + ";\n"@;
            assert(out@ =~= out0 + one);
            let r2 = spec_fields_from(pool, picked, j as int + 1);
            match r2 {
                Ok(t2) => {
                    assert((out0 + one) + t2 =~= out0 + (one + t2));
                },
                Err(_) => {},
            }
        }
        j = j + 1;
    }
    proof {
        assert(out@ + Seq::<char>::empty() =~= out@);
    }
    Ok(string_from_chars(out))
}

} // verus!
