//! A straight-line decompiler for Java class files.
//!
//! The library replays a method's stack-oriented instruction stream into
//! nested typed expressions and statements, resolves symbolic constants
//! through the class's constant pool, and assembles a readable, Java-like
//! rendering of the whole class. Control flow is not reconstructed: only
//! straight-line statement sequences are decompiled, and any opcode without
//! an authored rule fails the decompilation unit loudly.

use vstd::prelude::*;

pub mod attribute;
pub mod class;
pub mod classfile;
pub mod codegen;
pub mod constant_pool;
pub mod error;
pub mod exception;
pub mod field;
pub mod interface;
pub mod instruction;
pub mod jtype;
pub mod laws;
pub mod method;
pub mod numfmt;
pub mod text;
pub mod value;
pub mod variable;

verus! {

/// The full decompiled rendering of a class file: the class declaration
/// line, then between braces the field lines, a blank line, and the method
/// renderings, all in table order.
pub open spec fn spec_decompile_class_file(
    pool: Seq<constant_pool::CPEntryV>,
    flags: u16,
    this_class: u16,
    super_class: u16,
    interfaces: Seq<u16>,
    fields: Seq<classfile::MemberInfoV>,
    methods: Seq<classfile::MemberInfoV>,
) -> Result<Seq<char>, error::DecompileError> {
    match class::spec_class_signature(pool, flags, this_class, super_class, interfaces) {
        Ok(sig) => match field::spec_fields_from(pool, fields, 0) {
            Ok(field_text) => match method::spec_methods_from(pool, this_class, methods, 0) {
                Ok(method_text) => Ok(
                    sig + "{\n"@ + field_text + "\n"@ + method_text + "}\n"@,
                ),
                Err(e) => Err(e),
            },
            Err(e) => Err(e),
        },
        Err(e) => Err(e),
    }
}

/// Decompiles a whole class file into its pseudo-source rendering. The
/// class model must be well formed: each table's declared count within the
/// entries present.
pub fn decompile_class_file(class_file: &classfile::ClassFile) -> (r: Result<
    String,
    error::DecompileError,
>)
    requires
        classfile::spec_class_file_wf(*class_file),
    ensures
        match r {
            Ok(s) => spec_decompile_class_file(
                class_file.constant_pool@,
                class_file.access_flags,
                class_file.this_class,
                class_file.super_class,
                class_file.interfaces.interfaces@.take(
                    class_file.interfaces.interface_count as int,
                ),
                class_file.fields.fields.deep_view().take(class_file.fields.field_count as int),
                class_file.methods.methods.deep_view().take(class_file.methods.method_count as int),
            ) == Ok::<_, error::DecompileError>(s@),
            Err(e) => spec_decompile_class_file(
                class_file.constant_pool@,
                class_file.access_flags,
                class_file.this_class,
                class_file.super_class,
                class_file.interfaces.interfaces@.take(
                    class_file.interfaces.interface_count as int,
                ),
                class_file.fields.fields.deep_view().take(class_file.fields.field_count as int),
                class_file.methods.methods.deep_view().take(class_file.methods.method_count as int),
            ) == Err::<Seq<char>, _>(e),
        },
{
    let sig = match class::generate_signature_code(class_file) {
        Ok(s) => s,
        Err(e) => {
            return Err(e);
        },
    };
    let field_text = match field::decompile_fields(class_file) {
        Ok(s) => s,
        Err(e) => {
            return Err(e);
        },
    };
    let method_text = match method::decompile_methods(class_file) {
        Ok(s) => s,
        Err(e) => {
            return Err(e);
        },
    };
    let mut out = text::chars_from_str(sig.as_str());
    text::push_str_chars(&mut out, "{\n");
    text::push_str_chars(&mut out, field_text.as_str());
    text::push_str_chars(&mut out, "\n");
    text::push_str_chars(&mut out, method_text.as_str());
    text::push_str_chars(&mut out, "}\n");
    Ok(text::string_from_chars(out))
}

} // verus!
