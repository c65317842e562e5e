//! Method declarations and bodies: the declaration line built from access
//! flags, the method descriptor and the throws list, and the body decompiled
//! from the Code attribute's instruction stream.

use vstd::prelude::*;

use crate::class::{
    lemma_find_char_at, lemma_find_char_none, simple_name_start, spec_find_char, spec_simple_name,
};
use crate::classfile::{AttributeInfoV, ClassFile, MemberInfoV, MethodInfo};
use crate::codegen::{generate_code, spec_generate};
use crate::constant_pool::{spec_class_name_at, spec_utf8_at, CPEntryV, ConstantPool};
use crate::error::DecompileError;
use crate::exception::spec_be16;
use crate::instruction::{parse, spec_parse};
use crate::text::{chars_from_str, push_chars, push_str_chars, string_from_chars};
use crate::value::{descriptor_chars, push_dot_strip, spec_descriptor_type, spec_dot_strip};
use crate::variable::MethodInformation;

verus! {

/// The visibility, synthetic, static and abstract keywords of a method
/// declaration.
pub open spec fn spec_method_flags_head(flags: u16) -> Seq<char> {
    (if flags & 0x0001u16 != 0 {
        "public "@
    } else if flags & 0x0002u16 != 0 {
        "private "@
    } else if flags & 0x0004u16 != 0 {
        "protected "@
    } else {
        Seq::<char>::empty()
    }) + (if flags & 0x1000u16 != 0 {
        "/* synthetic */ "@
    } else {
        Seq::<char>::empty()
    }) + (if flags & 0x0008u16 != 0 {
        "static "@
    } else {
        Seq::<char>::empty()
    }) + (if flags & 0x0400u16 != 0 {
        "abstract "@
    } else {
        Seq::<char>::empty()
    })
}

/// The final, synchronized, bridge, strict and native keywords of a method
/// declaration.
pub open spec fn spec_method_flags_tail(flags: u16) -> Seq<char> {
    (if flags & 0x0010u16 != 0 {
        "final "@
    } else {
        Seq::<char>::empty()
    }) + (if flags & 0x0020u16 != 0 {
        "synchronized "@
    } else {
        Seq::<char>::empty()
    }) + (if flags & 0x0040u16 != 0 {
        "/* bridge */ "@
    } else {
        Seq::<char>::empty()
    }) + (if flags & 0x0800u16 != 0 {
        "/* strict */ "@
    } else {
        Seq::<char>::empty()
    }) + (if flags & 0x0100u16 != 0 {
        "native "@
    } else {
        Seq::<char>::empty()
    })
}

/// The access-keyword prefix of a method declaration, in rendering order.
pub open spec fn spec_method_flags(flags: u16) -> Seq<char> {
    spec_method_flags_head(flags) + spec_method_flags_tail(flags)
}

/// True when the method has no decompilable body: abstract or native.
pub open spec fn spec_skip_body(flags: u16) -> bool {
    flags & 0x0400u16 != 0 || flags & 0x0100u16 != 0
}

/// The characters of `s` with every parenthesis removed.
pub open spec fn spec_drop_parens(s: Seq<char>) -> Seq<char>
    decreases s.len(),
{
    if s.len() == 0 {
        Seq::<char>::empty()
    } else if s[0] == '(' || s[0] == ')' {
        spec_drop_parens(s.drop_first())
    } else {
        seq![s[0]] + spec_drop_parens(s.drop_first())
    }
}

proof fn lemma_drop_parens_push(s: Seq<char>, c: char)
    ensures
        spec_drop_parens(s.push(c)) == spec_drop_parens(s) + (if c == '(' || c == ')' {
            Seq::<char>::empty()
        } else {
            seq![c]
        }),
    decreases s.len(),
{
    if s.len() == 0 {
        let t = s.push(c);
        assert(t.len() == 1 && t[0] == c);
        assert(t.drop_first() =~= Seq::<char>::empty());
        assert(spec_drop_parens(t.drop_first()) == Seq::<char>::empty());
        assert(spec_drop_parens(t) == (if t[0] == '(' || t[0] == ')' {
            spec_drop_parens(t.drop_first())
        } else {
            seq![t[0]] + spec_drop_parens(t.drop_first())
        }));
        assert(spec_drop_parens(s.push(c)) =~= spec_drop_parens(s) + (if c == '(' || c == ')' {
            Seq::<char>::empty()
        } else {
            seq![c]
        }));
    } else {
        let t = s.push(c);
        assert(t.len() == s.len() + 1 && t[0] == s[0]);
        assert(t.drop_first() =~= s.drop_first().push(c));
        lemma_drop_parens_push(s.drop_first(), c);
        assert(spec_drop_parens(s.push(c)) =~= spec_drop_parens(s) + (if c == '(' || c == ')' {
            Seq::<char>::empty()
        } else {
            seq![c]
        }));
    }
}

/// Appends `d[from..to]` with parentheses removed.
fn push_drop_parens(out: &mut Vec<char>, d: &Vec<char>, from: usize, to: usize)
    requires
        from <= to <= d@.len(),
    ensures
        final(out)@ == old(out)@ + spec_drop_parens(d@.subrange(from as int, to as int)),
{
    let mut j: usize = from;
    while j < to
        invariant
            from <= j <= to <= d@.len(),
            out@ == old(out)@ + spec_drop_parens(d@.subrange(from as int, j as int)),
        decreases to - j,
    {
        let c = d[j];
        proof {
            lemma_drop_parens_push(d@.subrange(from as int, j as int), c);
            assert(d@.subrange(from as int, j as int).push(c) =~= d@.subrange(
                from as int,
                j as int + 1,
            ));
        }
        if c == '(' || c == ')' {
            // dropped
        } else {
            out.push(c);
        }
        assert(out@ =~= old(out)@ + spec_drop_parens(d@.subrange(from as int, j as int + 1)));
        j = j + 1;
    }
}

/// True of the descriptor letters that name a primitive or `void`.
pub open spec fn spec_is_primitive_letter(c: char) -> bool {
    c == 'B' || c == 'C' || c == 'D' || c == 'F' || c == 'I' || c == 'J' || c == 'S' || c == 'V'
        || c == 'Z'
}

/// The length of the first parameter descriptor of `s`: one letter for a
/// primitive, through the `;` (or to the end) for a class, one more than
/// the element's length for an array.
pub open spec fn spec_param_len(s: Seq<char>) -> Result<int, DecompileError>
    decreases s.len(),
{
    if s.len() == 0 {
        Err(DecompileError::InvalidDescriptor)
    } else if spec_is_primitive_letter(s[0]) {
        Ok(1)
    } else if s[0] == 'L' {
        let i = spec_find_char(s, ';');
        if i < 0 {
            Ok(s.len() as int)
        } else {
            Ok(i + 1)
        }
    } else if s[0] == '[' {
        match spec_param_len(s.drop_first()) {
            Ok(n) => Ok(n + 1),
            Err(e) => Err(e),
        }
    } else {
        Err(DecompileError::InvalidDescriptor)
    }
}

/// The display types of a parameter list: the descriptors split off one by
/// one, each decoded as a type.
pub open spec fn spec_params(s: Seq<char>) -> Result<Seq<Seq<char>>, DecompileError>
    decreases s.len(),
{
    if s.len() == 0 {
        Ok(Seq::<Seq<char>>::empty())
    } else {
        match spec_param_len(s) {
            Ok(n) => if 1 <= n <= s.len() {
                match spec_descriptor_type(s.take(n)) {
                    Ok(t) => match spec_params(s.skip(n)) {
                        Ok(rest) => Ok(seq![t] + rest),
                        Err(e) => Err(e),
                    },
                    Err(e) => Err(e),
                }
            } else {
                Err(DecompileError::InvalidDescriptor)
            },
            Err(e) => Err(e),
        }
    }
}

/// A varargs parameter list: the last type must be an array, and its final
/// `[]` becomes `...`.
pub open spec fn spec_varargs_types(types: Seq<Seq<char>>) -> Result<
    Seq<Seq<char>>,
    DecompileError,
> {
    if types.len() == 0 {
        Err(DecompileError::InvalidDescriptor)
    } else {
        let last = types.last();
        if last.len() >= 2 && last[last.len() - 2] == '[' && last[last.len() - 1] == ']' {
            Ok(types.update(types.len() - 1, last.take(last.len() - 2) + "..."@))
        } else {
            Err(DecompileError::InvalidDescriptor)
        }
    }
}

/// The formatted argument list from position `k` on: `type argN` items,
/// comma-separated, numbered from `offset` (one for instance methods, whose
/// slot zero is `this`).
pub open spec fn spec_fmt_args(types: Seq<Seq<char>>, offset: int, k: int) -> Seq<char>
    decreases types.len() - k,
{
    if k < 0 || k >= types.len() {
        Seq::<char>::empty()
    } else {
        (if k > 0 {
            ", "@
        } else {
            Seq::<char>::empty()
        }) + types[k] + " arg"@ + crate::numfmt::spec_dec_nat((k + offset) as nat) + spec_fmt_args(
            types,
            offset,
            k + 1,
        )
    }
}

/// The first attribute bearing the given name, scanned in order; an
/// attribute whose name entry is not `Utf8` is a kind mismatch.
pub open spec fn spec_first_named(attrs: Seq<AttributeInfoV>, name: Seq<char>, j: int) -> Result<
    Option<Seq<u8>>,
    DecompileError,
>
    decreases attrs.len() - j,
{
    if j < 0 || j >= attrs.len() {
        Ok(None)
    } else {
        match attrs[j].name_value {
            CPEntryV::Utf8(n) => if n == name {
                Ok(Some(attrs[j].info))
            } else {
                spec_first_named(attrs, name, j + 1)
            },
            _ => Err(DecompileError::PoolKindMismatch),
        }
    }
}

/// The `throws` entries of an Exceptions attribute from `i` on: each class
/// index decoded and dotted, comma-separated.
pub open spec fn spec_throws_list(
    pool: Seq<CPEntryV>,
    bytes: Seq<u8>,
    i: int,
    count: int,
) -> Result<Seq<char>, DecompileError>
    decreases count - i,
{
    if i < 0 || i >= count {
        Ok(Seq::<char>::empty())
    } else if 2 * (i + 1) + 1 >= bytes.len() {
        Err(DecompileError::TruncatedInput)
    } else {
        let index = spec_be16(bytes[2 * (i + 1)], bytes[2 * (i + 1) + 1]);
        match spec_class_name_at(pool, index) {
            Ok(name) => match spec_throws_list(pool, bytes, i + 1, count) {
                Ok(rest) => Ok(
                    (if i > 0 {
                        ", "@
                    } else {
                        Seq::<char>::empty()
                    }) + spec_dot_strip(name) + rest,
                ),
                Err(e) => Err(e),
            },
            Err(e) => Err(e),
        }
    }
}

/// The `throws` clause of a method: empty without an Exceptions attribute,
/// else ` throws ` and the listed classes.
pub open spec fn spec_throws(pool: Seq<CPEntryV>, attrs: Seq<AttributeInfoV>) -> Result<
    Seq<char>,
    DecompileError,
> {
    match spec_first_named(attrs, "Exceptions"@, 0) {
        Ok(None) => Ok(Seq::<char>::empty()),
        Ok(Some(bytes)) => if bytes.len() < 2 {
            Err(DecompileError::TruncatedInput)
        } else {
            match spec_throws_list(pool, bytes, 0, spec_be16(bytes[0], bytes[1]) as int) {
                Ok(list) => Ok(" throws "@ + list),
                Err(e) => Err(e),
            }
        },
        Err(e) => Err(e),
    }
}

/// The declaration line of a method and its argument count (counting the
/// implicit `this` of an instance method). A constructor (`void <init>`)
/// is rendered under the class's simple name.
pub open spec fn spec_method_header(
    pool: Seq<CPEntryV>,
    this_class: u16,
    m: MemberInfoV,
) -> Result<(Seq<char>, u8), DecompileError> {
    match spec_utf8_at(pool, m.descriptor_index) {
        Ok(descriptor) => {
            let p = spec_find_char(descriptor, ')');
            if p < 0 || p >= descriptor.len() {
                Err(DecompileError::InvalidDescriptor)
            } else {
                match spec_descriptor_type(descriptor.skip(p + 1)) {
                    Ok(ret) => match spec_utf8_at(pool, m.name_index) {
                        Ok(name) => match spec_class_name_at(pool, this_class) {
                            Ok(class_name) => match spec_params(
                                spec_drop_parens(descriptor.take(p + 1)),
                            ) {
                                Ok(types0) => {
                                    let offset: int = if m.access_flags & 0x0008u16 != 0 {
                                        0
                                    } else {
                                        1
                                    };
                                    if types0.len() + offset > 255 {
                                        Err(DecompileError::InvalidDescriptor)
                                    } else {
                                        let named = if ret == "void"@ && name == "<init>"@ {
                                            spec_simple_name(class_name)
                                        } else {
                                            ret + " "@ + name
                                        };
                                        let types = if m.access_flags & 0x0080u16 != 0 {
                                            spec_varargs_types(types0)
                                        } else {
                                            Ok(types0)
                                        };
                                        match types {
                                            Ok(types1) => match spec_throws(pool, m.attributes) {
                                                Ok(th) => Ok(
                                                    (
                                                        spec_method_flags(m.access_flags) + named
                                                            + "("@ + spec_fmt_args(
                                                            types1,
                                                            offset,
                                                            0,
                                                        ) + ")"@ + th,
                                                        (types0.len() + offset) as u8,
                                                    ),
                                                ),
                                                Err(e) => Err(e),
                                            },
                                            Err(e) => Err(e),
                                        }
                                    }
                                },
                                Err(e) => Err(e),
                            },
                            Err(e) => Err(e),
                        },
                        Err(e) => Err(e),
                    },
                    Err(e) => Err(e),
                }
            }
        },
        Err(e) => Err(e),
    }
}

/// The instruction bytes inside a Code attribute: the framing words are
/// skipped and the declared code length selects the slice.
pub open spec fn spec_code_slice(bytes: Seq<u8>) -> Result<Seq<u8>, DecompileError> {
    if bytes.len() < 8 {
        Err(DecompileError::TruncatedInput)
    } else {
        let cl = ((spec_be16(bytes[4], bytes[5]) as int) * 65536) + (spec_be16(
            bytes[6],
            bytes[7],
        ) as int);
        if 8 + cl > bytes.len() {
            Err(DecompileError::TruncatedInput)
        } else {
            Ok(bytes.subrange(8, 8 + cl))
        }
    }
}

/// The decompiled body of a method: the Code attribute's instruction bytes
/// decoded and replayed into statements. A method without a Code attribute
/// has no body to decompile.
pub open spec fn spec_bytecode_text(
    pool: Seq<CPEntryV>,
    m: MemberInfoV,
    arg_count: u8,
) -> Result<Seq<char>, DecompileError> {
    match spec_first_named(m.attributes, "Code"@, 0) {
        Ok(None) => Err(DecompileError::TruncatedInput),
        Ok(Some(bytes)) => match spec_code_slice(bytes) {
            Ok(code) => match spec_parse(code, 0) {
                Ok(instrs) => spec_generate(
                    instrs,
                    pool,
                    MethodInformation {
                        is_static: m.access_flags & 0x0008u16 != 0,
                        arg_count,
                    },
                ),
                Err(e) => Err(e),
            },
            Err(e) => Err(e),
        },
        Err(e) => Err(e),
    }
}

/// One character of the body-indentation rewrite: a newline gains the
/// two-tab prefix of the following line.
pub open spec fn spec_nl_one(c: char) -> Seq<char> {
    if c == '\n' {
        "\n\t\t"@
    } else {
        seq![c]
    }
}

/// A body reindented for the method's braces: every newline is followed by
/// two tabs.
pub open spec fn spec_nl(s: Seq<char>) -> Seq<char>
    decreases s.len(),
{
    if s.len() == 0 {
        Seq::<char>::empty()
    } else {
        spec_nl_one(s[0]) + spec_nl(s.drop_first())
    }
}

proof fn lemma_nl_push(s: Seq<char>, c: char)
    ensures
        spec_nl(s.push(c)) == spec_nl(s) + spec_nl_one(c),
    decreases s.len(),
{
    if s.len() == 0 {
        let t = s.push(c);
        assert(t.len() == 1 && t[0] == c);
        assert(t.drop_first() =~= Seq::<char>::empty());
        assert(spec_nl(t.drop_first()) == Seq::<char>::empty());
        assert(spec_nl(t) == spec_nl_one(t[0]) + spec_nl(t.drop_first()));
        assert(spec_nl(s.push(c)) =~= spec_nl(s) + spec_nl_one(c));
    } else {
        let t = s.push(c);
        assert(t.len() == s.len() + 1 && t[0] == s[0]);
        assert(t.drop_first() =~= s.drop_first().push(c));
        lemma_nl_push(s.drop_first(), c);
        assert(spec_nl(s.push(c)) =~= spec_nl(s) + spec_nl_one(c));
    }
}

/// Appends the characters of `body` with every newline followed by two
/// tabs.
fn push_indented(out: &mut Vec<char>, body: &Vec<char>)
    ensures
        final(out)@ == old(out)@ + spec_nl(body@),
{
    let mut j: usize = 0;
    while j < body.len()
        invariant
            j <= body@.len(),
            out@ == old(out)@ + spec_nl(body@.take(j as int)),
        decreases body@.len() - j,
    {
        let c = body[j];
        proof {
            lemma_nl_push(body@.take(j as int), c);
            assert(body@.take(j as int).push(c) =~= body@.take(j as int + 1));
        }
        if c == '\n' {
            push_str_chars(out, "\n\t\t");
        } else {
            out.push(c);
        }
        assert(out@ =~= old(out)@ + spec_nl(body@.take(j as int + 1)));
        j = j + 1;
    }
    proof {
        assert(body@.take(body@.len() as int) =~= body@);
    }
}

/// The full rendering of one method: the declaration alone for an abstract
/// or native method, else the declaration and the decompiled body between
/// braces.
pub open spec fn spec_decompile_method(
    pool: Seq<CPEntryV>,
    this_class: u16,
    m: MemberInfoV,
) -> Result<Seq<char>, DecompileError> {
    match spec_method_header(pool, this_class, m) {
        Ok((sig, arg_count)) => if spec_skip_body(m.access_flags) {
            Ok("\t"@ + sig + ";\n"@)
        } else {
            match spec_bytecode_text(pool, m, arg_count) {
                Ok(body) => Ok(
                    "\t"@ + sig + " {\n"@ + "\t\t"@ + spec_nl(body) + "\n"@ + "\t}\n"@,
                ),
                Err(e) => Err(e),
            }
        },
        Err(e) => Err(e),
    }
}


/// The length of the first parameter descriptor of `d[from..]`.
fn param_len_at(d: &Vec<char>, from: usize) -> (r: Result<usize, DecompileError>)
    requires
        from <= d@.len(),
    ensures
        match r {
            Ok(n) => spec_param_len(d@.skip(from as int)) == Ok::<int, DecompileError>(n as int)
                && 1 <= n <= d@.len() - from,
            Err(e) => spec_param_len(d@.skip(from as int)) == Err::<int, _>(e),
        },
    decreases d@.len() - from,
{
    let ghost tail = d@.skip(from as int);
    if from == d.len() {
        return Err(DecompileError::InvalidDescriptor);
    }
    let c = d[from];
    proof {
        assert(tail.len() > 0 && tail[0] == d@[from as int]);
    }
    if c == 'B' || c == 'C' || c == 'D' || c == 'F' || c == 'I' || c == 'J' || c == 'S' || c == 'V'
        || c == 'Z' {
        Ok(1)
    } else if c == 'L' {
        let mut i: usize = from;
        while i < d.len() && d[i] != ';'
            invariant
                from <= i <= d@.len(),
                tail == d@.skip(from as int),
                forall|j: int| from <= j < i ==> d@[j] != ';',
            decreases d@.len() - i,
        {
            i = i + 1;
        }
        if i == d.len() {
            proof {
                assert(forall|j: int| 0 <= j < tail.len() ==> #[trigger] tail[j] != ';');
                lemma_find_char_none(tail, ';');
            }
            Ok(d.len() - from)
        } else {
            proof {
                assert(tail[i - from] == ';');
                assert(forall|j: int| 0 <= j < i - from ==> #[trigger] tail[j] != ';');
                lemma_find_char_at(tail, ';', i as int - from as int);
            }
            Ok(i - from + 1)
        }
    } else if c == '[' {
        proof {
            assert(tail.drop_first() =~= d@.skip(from as int + 1));
        }
        match param_len_at(d, from + 1) {
            Ok(n) => Ok(n + 1),
            Err(e) => Err(e),
        }
    } else {
        Err(DecompileError::InvalidDescriptor)
    }
}

/// The display types of a parameter list, split off one descriptor at a
/// time and decoded.
fn parse_args_chars(d: &Vec<char>) -> (r: Result<Vec<String>, DecompileError>)
    ensures
        match r {
            Ok(v) => spec_params(d@) == Ok::<_, DecompileError>(v.deep_view()),
            Err(e) => spec_params(d@) == Err::<Seq<Seq<char>>, _>(e),
        },
{
    let mut out: Vec<String> = Vec::new();
    let mut i: usize = 0;
    proof {
        assert(d@.skip(0) =~= d@);
        assert(out.deep_view() =~= Seq::<Seq<char>>::empty());
    }
    while i < d.len()
        invariant
            i <= d@.len(),
            match spec_params(d@.skip(i as int)) {
                Ok(rest) => spec_params(d@) == Ok::<_, DecompileError>(out.deep_view() + rest),
                Err(e) => spec_params(d@) == Err::<Seq<Seq<char>>, _>(e),
            },
        decreases d@.len() - i,
    {
        let ghost out0 = out.deep_view();
        let ghost out0seq = out@;
        let n = match param_len_at(d, i) {
            Ok(n) => n,
            Err(e) => {
                return Err(e);
            },
        };
        let end: usize = i + n;
        let mut sub: Vec<char> = Vec::new();
        let mut k: usize = i;
        while k < end
            invariant
                i <= k <= end,
                end <= d@.len(),
                end == i + n,
                sub@ == d@.subrange(i as int, k as int),
            decreases end - k,
        {
            sub.push(d[k]);
            assert(sub@ =~= d@.subrange(i as int, k as int + 1));
            k = k + 1;
        }
        proof {
            assert(sub@ =~= d@.skip(i as int).take(n as int));
            assert(sub@.skip(0) =~= sub@);
        }
        let t = match descriptor_chars(&sub, 0) {
            Ok(t) => t,
            Err(e) => {
                return Err(e);
            },
        };
        let ghost tview = t@;
        out.push(string_from_chars(t));
        proof {
            let dv = out.deep_view();
            assert forall|m: int| 0 <= m < dv.len() implies dv[m] == (out0 + seq![tview])[m] by {
                if m < out0.len() {
                    assert(out@[m] == out0seq[m]);
                    assert(out0[m] == out0seq[m].deep_view());
                } else {
                    assert(out@[m].deep_view() == tview);
                }
            }
            assert(dv =~= out0 + seq![tview]);
            assert(d@.skip(i as int).skip(n as int) =~= d@.skip(i as int + n as int));
            let r2 = spec_params(d@.skip(i as int + n as int));
            match r2 {
                Ok(rest2) => {
                    assert((out0 + seq![tview]) + rest2 =~= out0 + (seq![tview] + rest2));
                },
                Err(_) => {},
            }
        }
        i = i + n;
    }
    proof {
        assert(d@.skip(d@.len() as int) =~= Seq::<char>::empty());
        assert(out.deep_view() + Seq::<Seq<char>>::empty() =~= out.deep_view());
    }
    Ok(out)
}

/// Appends the formatted, comma-separated argument list, numbering slots
/// from `offset`.
fn push_fmt_args(out: &mut Vec<char>, types: &Vec<String>, offset: u8)
    requires
        types@.len() < 256,
    ensures
        final(out)@ == old(out)@ + spec_fmt_args(types.deep_view(), offset as int, 0),
{
    let ghost dv = types.deep_view();
    let mut k: usize = 0;
    while k < types.len()
        invariant
            k <= types@.len(),
            types@.len() < 256,
            dv == types.deep_view(),
            dv.len() == types@.len(),
            out@ + spec_fmt_args(dv, offset as int, k as int) == old(out)@ + spec_fmt_args(
                dv,
                offset as int,
                0,
            ),
        decreases types@.len() - k,
    {
        let ghost before = out@;
        if k > 0 {
            push_str_chars(out, ", ");
        }
        push_str_chars(out, types[k].as_str());
        push_str_chars(out, " arg");
        crate::numfmt::push_dec_u64(out, (k as u64) + (offset as u64));
        proof {
            assert(dv[k as int] == types@[k as int].deep_view());
            let one = (if k > 0 {
                ", "@
            } else {
                Seq::<char>::empty()
            }) + dv[k as int] + " arg"@ + crate::numfmt::spec_dec_nat((k + offset) as nat);
            assert(out@ =~= before + one);
            assert((before + one) + spec_fmt_args(dv, offset as int, k as int + 1) =~= before + (one
                + spec_fmt_args(dv, offset as int, k as int + 1)));
        }
        k = k + 1;
    }
    proof {
        assert(out@ + Seq::<char>::empty() =~= out@);
    }
}

/// The position of the first attribute bearing `name`, scanned in order.
fn find_named_attr(attrs: &Vec<crate::classfile::AttributeInfo>, name: &String) -> (r: Result<
    Option<usize>,
    DecompileError,
>)
    ensures
        match r {
            Ok(Some(j)) => j < attrs@.len() && spec_first_named(attrs.deep_view(), name@, 0)
                == Ok::<_, DecompileError>(Some(attrs.deep_view()[j as int].info)),
            Ok(None) => spec_first_named(attrs.deep_view(), name@, 0) == Ok::<
                _,
                DecompileError,
            >(None::<Seq<u8>>),
            Err(e) => spec_first_named(attrs.deep_view(), name@, 0) == Err::<Option<Seq<u8>>, _>(e),
        },
{
    let ghost dv = attrs.deep_view();
    let mut j: usize = 0;
    while j < attrs.len()
        invariant
            j <= attrs@.len(),
            dv == attrs.deep_view(),
            dv.len() == attrs@.len(),
            spec_first_named(dv, name@, 0) == spec_first_named(dv, name@, j as int),
        decreases attrs@.len() - j,
    {
        proof {
            assert(dv[j as int] == attrs@[j as int].deep_view());
        }
        match &attrs[j].attribute_name_index.value {
            crate::constant_pool::CPIndexType::Utf8(n) => {
                if n.eq(name) {
                    return Ok(Some(j));
                }
            },
            _ => {
                return Err(DecompileError::PoolKindMismatch);
            },
        }
        j = j + 1;
    }
    Ok(None)
}

/// Appends the `throws` list of an Exceptions attribute's bytes: `count`
/// class indexes read big-endian after the count word.
fn push_throws_list(
    out: &mut Vec<char>,
    bytes: &Vec<u8>,
    count: usize,
    constant_pool: &ConstantPool,
) -> (r: Result<(), DecompileError>)
    requires
        count <= 65536,
    ensures
        match r {
            Ok(()) => spec_throws_list(constant_pool@, bytes@, 0, count as int) is Ok && final(out)@ == old(out)@ + spec_throws_list(constant_pool@, bytes@, 0, count as int)->Ok_0,
            Err(e) => spec_throws_list(constant_pool@, bytes@, 0, count as int) == Err::<
                Seq<char>,
                _,
            >(e),
        },
{
    let ghost pool = constant_pool@;
    let ghost mut acc: Seq<char> = Seq::empty();
    let mut i: usize = 0;
    proof {
        assert(old(out)@ + acc =~= old(out)@);
    }
    while i < count
        invariant
            i <= count <= 65536,
            pool == constant_pool@,
            out@ == old(out)@ + acc,
            match spec_throws_list(pool, bytes@, i as int, count as int) {
                Ok(rest) => spec_throws_list(pool, bytes@, 0, count as int) == Ok::<
                    _,
                    DecompileError,
                >(acc + rest),
                Err(e) => spec_throws_list(pool, bytes@, 0, count as int) == Err::<Seq<char>, _>(
                    e,
                ),
            },
        decreases count - i,
    {
        let lo_pos = 2 * i + 3;
        if lo_pos >= bytes.len() {
            return Err(DecompileError::TruncatedInput);
        }
        let index = (bytes[2 * i + 2] as u16) * 256 + (bytes[lo_pos] as u16);
        proof {
            assert(index == spec_be16(bytes@[2 * (i as int + 1)], bytes@[2 * (i as int + 1) + 1]));
        }
        let name = match constant_pool.class_name_at(index) {
            Ok(s) => s,
            Err(e) => {
                return Err(e);
            },
        };
        let ghost before = out@;
        if i > 0 {
            push_str_chars(out, ", ");
        }
        let name_chars = chars_from_str(name.as_str());
        proof {
            assert(name_chars@.skip(0) =~= name_chars@);
        }
        push_dot_strip(out, &name_chars, 0);
        proof {
            let one = (if i > 0 {
                ", "@
            } else {
                Seq::<char>::empty()
            }) + spec_dot_strip(name@);
            assert(out@ =~= before + one);
            assert(out@ =~= old(out)@ + (acc + one));
            let r2 = spec_throws_list(pool, bytes@, i as int + 1, count as int);
            match r2 {
                Ok(rest2) => {
                    assert(acc + (one + rest2) =~= (acc + one) + rest2);
                },
                Err(_) => {},
            }
            acc = acc + one;
        }
        i = i + 1;
    }
    proof {
        assert(acc + Seq::<char>::empty() =~= acc);
    }
    Ok(())
}

/// Appends the `throws` clause of a method, empty when no Exceptions
/// attribute is present.
fn push_throws(
    out: &mut Vec<char>,
    attrs: &Vec<crate::classfile::AttributeInfo>,
    constant_pool: &ConstantPool,
) -> (r: Result<(), DecompileError>)
    ensures
        match r {
            Ok(()) => spec_throws(constant_pool@, attrs.deep_view()) is Ok && final(out)@ == old(out)@ + spec_throws(constant_pool@, attrs.deep_view())->Ok_0,
            Err(e) => spec_throws(constant_pool@, attrs.deep_view()) == Err::<Seq<char>, _>(e),
        },
{
    let marker = "Exceptions".to_owned();
    let j = match find_named_attr(attrs, &marker) {
        Ok(Some(j)) => j,
        Ok(None) => {
            proof {
                assert(old(out)@ + Seq::<char>::empty() =~= old(out)@);
            }
            return Ok(());
        },
        Err(e) => {
            return Err(e);
        },
    };
    let bytes = &attrs[j].info;
    proof {
        assert(attrs.deep_view()[j as int] == attrs@[j as int].deep_view());
    }
    if bytes.len() < 2 {
        return Err(DecompileError::TruncatedInput);
    }
    let count = ((bytes[0] as u16) * 256 + (bytes[1] as u16)) as usize;
    proof {
        assert(count == spec_be16(bytes@[0], bytes@[1]) as int);
    }
    let ghost before = out@;
    push_str_chars(out, " throws ");
    match push_throws_list(out, bytes, count, constant_pool) {
        Ok(()) => {
            proof {
                let list = spec_throws_list(constant_pool@, bytes@, 0, count as int)->Ok_0;
                assert(out@ =~= before + (" throws "@ + list));
            }
            Ok(())
        },
        Err(e) => Err(e),
    }
}

/// One method being decompiled: its shape flags, the class context, and the
/// declaration text once generated.
pub struct Method<'a> {
    pub decompile: bool,
    pub varargs: bool,
    pub is_static: bool,
    pub arg_count: u8,
    pub this_class: u16,
    pub method_info: &'a MethodInfo,
    pub method_signature: String,
    pub constant_pool: &'a ConstantPool,
}

impl<'a> Method<'a> {
    /// A method renderer over one method-table entry, not yet generated.
    pub fn new(
        this_class: u16,
        method_info: &'a MethodInfo,
        constant_pool: &'a ConstantPool,
    ) -> (r: Method<'a>)
        ensures
            r.decompile == true,
            r.varargs == false,
            r.is_static == false,
            r.arg_count == 0,
            r.this_class == this_class,
            r.method_info == method_info,
            r.constant_pool == constant_pool,
            r.method_signature@ == Seq::<char>::empty(),
    {
        Method {
            decompile: true,
            varargs: false,
            is_static: false,
            arg_count: 0,
            this_class,
            method_info,
            method_signature: String::new(),
            constant_pool,
        }
    }

    /// The text of the `Utf8` entry at `index`.
    pub fn get_string(&self, index: u16) -> (r: Result<String, DecompileError>)
        ensures
            match r {
                Ok(s) => spec_utf8_at(self.constant_pool@, index) == Ok::<_, DecompileError>(s@),
                Err(e) => spec_utf8_at(self.constant_pool@, index) == Err::<Seq<char>, _>(e),
            },
    {
        self.constant_pool.utf8_at(index)
    }

    /// The display types of the parameters in a cleaned argument-descriptor
    /// string.
    pub fn parse_args(&self, args: String) -> (r: Result<Vec<String>, DecompileError>)
        ensures
            match r {
                Ok(v) => spec_params(args@) == Ok::<_, DecompileError>(v.deep_view()),
                Err(e) => spec_params(args@) == Err::<Seq<Seq<char>>, _>(e),
            },
    {
        let d = chars_from_str(args.as_str());
        parse_args_chars(&d)
    }

    /// Generates the declaration line, storing it and the shape flags on
    /// the method.
    #[verifier::rlimit(100)]
    pub fn generate_method_signature(&mut self) -> (r: Result<(), DecompileError>)
        ensures
            match r {
                Ok(()) => ({
                    let h = spec_method_header(
                        old(self).constant_pool@,
                        old(self).this_class,
                        old(self).method_info@,
                    );
                    &&& h is Ok
                    &&& final(self).method_signature@ == h->Ok_0.0
                    &&& final(self).arg_count == h->Ok_0.1
                    &&& final(self).is_static == (old(self).method_info.access_flags & 0x0008u16
                        != 0)
                    &&& final(self).varargs == (old(self).method_info.access_flags & 0x0080u16
                        != 0)
                    &&& final(self).decompile == !spec_skip_body(
                        old(self).method_info.access_flags,
                    )
                    &&& final(self).this_class == old(self).this_class
                    &&& final(self).method_info == old(self).method_info
                    &&& final(self).constant_pool == old(self).constant_pool
                }),
                Err(e) => spec_method_header(
                    old(self).constant_pool@,
                    old(self).this_class,
                    old(self).method_info@,
                ) == Err::<(Seq<char>, u8), _>(e),
            },
    {
        let flags = self.method_info.access_flags;
        let descriptor = match self.constant_pool.utf8_at(self.method_info.descriptor_index) {
            Ok(s) => s,
            Err(e) => {
                return Err(e);
            },
        };
        let d = chars_from_str(descriptor.as_str());
        let mut p: usize = 0;
        while p < d.len() && d[p] != ')'
            invariant
                p <= d@.len(),
                forall|j: int| 0 <= j < p ==> d@[j] != ')',
            decreases d@.len() - p,
        {
            p = p + 1;
        }
        if p == d.len() {
            proof {
                assert(forall|j: int| 0 <= j < d@.len() ==> #[trigger] d@[j] != ')');
                lemma_find_char_none(d@, ')');
            }
            return Err(DecompileError::InvalidDescriptor);
        }
        proof {
            assert(d@[p as int] == ')');
            lemma_find_char_at(d@, ')', p as int);
        }
        let ret = match descriptor_chars(&d, p + 1) {
            Ok(t) => t,
            Err(e) => {
                return Err(e);
            },
        };
        let name = match self.constant_pool.utf8_at(self.method_info.name_index) {
            Ok(s) => s,
            Err(e) => {
                return Err(e);
            },
        };
        let class_name = match self.constant_pool.class_name_at(self.this_class) {
            Ok(s) => s,
            Err(e) => {
                return Err(e);
            },
        };
        let mut cleaned: Vec<char> = Vec::new();
        push_drop_parens(&mut cleaned, &d, 0, p + 1);
        proof {
            assert(d@.subrange(0, p as int + 1) =~= d@.take(p as int + 1));
            assert(cleaned@ =~= spec_drop_parens(d@.take(p as int + 1)));
        }
        let types0 = match parse_args_chars(&cleaned) {
            Ok(v) => v,
            Err(e) => {
                return Err(e);
            },
        };
        let offset: usize = if flags & 0x0008u16 != 0 {
            0
        } else {
            1
        };
        if types0.len() >= 256 - offset {
            return Err(DecompileError::InvalidDescriptor);
        }
        let arg_count: u8 = (types0.len() + offset) as u8;
        let is_void_init = {
            let void_text = "void".to_owned();
            let init_text = "<init>".to_owned();
            let ret_string = string_from_chars_copy(&ret);
            ret_string.eq(&void_text) && name.eq(&init_text)
        };
        let mut out: Vec<char> = Vec::new();
        push_method_flags(&mut out, flags);
        if is_void_init {
            push_simple_name(&mut out, &class_name);
        } else {
            push_chars(&mut out, &ret);
            push_str_chars(&mut out, " ");
            push_str_chars(&mut out, name.as_str());
        }
        let types = if flags & 0x0080u16 != 0 {
            match rewrite_varargs(types0) {
                Ok(v) => v,
                Err(e) => {
                    return Err(e);
                },
            }
        } else {
            types0
        };
        push_str_chars(&mut out, "(");
        push_fmt_args(&mut out, &types, offset as u8);
        push_str_chars(&mut out, ")");
        match push_throws(&mut out, &self.method_info.attributes, self.constant_pool) {
            Ok(()) => {},
            Err(e) => {
                return Err(e);
            },
        }
        self.method_signature = string_from_chars(out);
        self.is_static = flags & 0x0008u16 != 0;
        self.varargs = flags & 0x0080u16 != 0;
        self.decompile = !(flags & 0x0400u16 != 0 || flags & 0x0100u16 != 0);
        self.arg_count = arg_count;
        Ok(())
    }

    /// The declaration line, generated and cached on the method.
    pub fn get_method_signature(&mut self) -> (r: Result<String, DecompileError>)
        ensures
            match r {
                Ok(s) => spec_method_header(
                    old(self).constant_pool@,
                    old(self).this_class,
                    old(self).method_info@,
                ) is Ok && s@ == spec_method_header(
                    old(self).constant_pool@,
                    old(self).this_class,
                    old(self).method_info@,
                )->Ok_0.0,
                Err(e) => spec_method_header(
                    old(self).constant_pool@,
                    old(self).this_class,
                    old(self).method_info@,
                ) == Err::<(Seq<char>, u8), _>(e),
            },
    {
        match self.generate_method_signature() {
            Ok(()) => Ok(self.method_signature.clone()),
            Err(e) => Err(e),
        }
    }

    /// Decompiles the method's Code attribute into statement text; the
    /// shape flags must have been generated first.
    fn decompile_bytecode(&self) -> (r: Result<String, DecompileError>)
        requires
            self.is_static == (self.method_info.access_flags & 0x0008u16 != 0),
        ensures
            match r {
                Ok(s) => spec_bytecode_text(
                    self.constant_pool@,
                    self.method_info@,
                    self.arg_count,
                ) == Ok::<_, DecompileError>(s@),
                Err(e) => spec_bytecode_text(
                    self.constant_pool@,
                    self.method_info@,
                    self.arg_count,
                ) == Err::<Seq<char>, _>(e),
            },
    {
        let marker = "Code".to_owned();
        let j = match find_named_attr(&self.method_info.attributes, &marker) {
            Ok(Some(j)) => j,
            Ok(None) => {
                return Err(DecompileError::TruncatedInput);
            },
            Err(e) => {
                return Err(e);
            },
        };
        let bytes = &self.method_info.attributes[j].info;
        proof {
            assert(self.method_info.attributes.deep_view()[j as int]
                == self.method_info.attributes@[j as int].deep_view());
        }
        let code = match code_slice(bytes) {
            Ok(v) => v,
            Err(e) => {
                return Err(e);
            },
        };
        let instrs = match parse(&code) {
            Ok(v) => v,
            Err(e) => {
                return Err(e);
            },
        };
        let mi = MethodInformation { is_static: self.is_static, arg_count: self.arg_count };
        generate_code(&instrs, self.constant_pool, &mi)
    }

    /// The full rendering of the method: the declaration line, and (unless
    /// the method is abstract or native) the decompiled body between
    /// braces, indented for the class body.
    pub fn decompile_method(&mut self) -> (r: Result<String, DecompileError>)
        ensures
            match r {
                Ok(s) => spec_decompile_method(
                    old(self).constant_pool@,
                    old(self).this_class,
                    old(self).method_info@,
                ) == Ok::<_, DecompileError>(s@),
                Err(e) => spec_decompile_method(
                    old(self).constant_pool@,
                    old(self).this_class,
                    old(self).method_info@,
                ) == Err::<Seq<char>, _>(e),
            },
    {
        match self.generate_method_signature() {
            Ok(()) => {},
            Err(e) => {
                return Err(e);
            },
        }
        let mut out: Vec<char> = Vec::new();
        push_str_chars(&mut out, "\t");
        push_str_chars(&mut out, self.method_signature.as_str());
        if !self.decompile {
            push_str_chars(&mut out, ";\n");
            return Ok(string_from_chars(out));
        }
        let body = match self.decompile_bytecode() {
            Ok(s) => s,
            Err(e) => {
                return Err(e);
            },
        };
        let body_chars = chars_from_str(body.as_str());
        push_str_chars(&mut out, " {\n");
        push_str_chars(&mut out, "\t\t");
        push_indented(&mut out, &body_chars);
        push_str_chars(&mut out, "\n");
        push_str_chars(&mut out, "\t}\n");
        Ok(string_from_chars(out))
    }
}

/// A varargs parameter list with the final `[]` of the last type rewritten
/// to `...`.
fn rewrite_varargs(types: Vec<String>) -> (r: Result<Vec<String>, DecompileError>)
    ensures
        match r {
            Ok(v) => spec_varargs_types(types.deep_view()) == Ok::<_, DecompileError>(
                v.deep_view(),
            ),
            Err(e) => spec_varargs_types(types.deep_view()) == Err::<Seq<Seq<char>>, _>(e),
        },
{
    let ghost dv0 = types.deep_view();
    let n = types.len();
    if n == 0 {
        return Err(DecompileError::InvalidDescriptor);
    }
    let last = chars_from_str(types[n - 1].as_str());
    proof {
        assert(dv0[n - 1] == types@[n - 1].deep_view());
        assert(dv0.last() == last@);
    }
    let ll = last.len();
    if !(ll >= 2 && last[ll - 2] == '[' && last[ll - 1] == ']') {
        return Err(DecompileError::InvalidDescriptor);
    }
    let mut rewritten: Vec<char> = Vec::new();
    let mut k: usize = 0;
    while k < ll - 2
        invariant
            k <= ll - 2,
            ll == last@.len(),
            rewritten@ == last@.take(k as int),
        decreases ll - 2 - k,
    {
        rewritten.push(last[k]);
        assert(rewritten@ =~= last@.take(k as int + 1));
        k = k + 1;
    }
    push_str_chars(&mut rewritten, "...");
    let mut out = types;
    let ghost pre = out@;
    out.set(n - 1, string_from_chars(rewritten));
    proof {
        let dv = out.deep_view();
        let expect = dv0.update(dv0.len() - 1, dv0.last().take(dv0.last().len() - 2) + "..."@);
        assert forall|m: int| 0 <= m < dv.len() implies dv[m] == expect[m] by {
            if m < dv.len() - 1 {
                assert(out@[m] == pre[m]);
                assert(dv0[m] == pre[m].deep_view());
            } else {
                assert(out@[m].deep_view() =~= dv0.last().take(dv0.last().len() - 2) + "..."@);
            }
        }
        assert(dv =~= expect);
    }
    Ok(out)
}

/// A copy of the characters of `v` as a string.
fn string_from_chars_copy(v: &Vec<char>) -> (r: String)
    ensures
        r@ == v@,
{
    let mut copy: Vec<char> = Vec::new();
    push_chars(&mut copy, v);
    string_from_chars(copy)
}

/// Appends the access-keyword prefix of a method declaration.
fn push_method_flags_head(out: &mut Vec<char>, flags: u16)
    ensures
        final(out)@ == old(out)@ + spec_method_flags_head(flags),
{
    if flags & 0x0001u16 != 0 {
        push_str_chars(out, "public ");
    } else if flags & 0x0002u16 != 0 {
        push_str_chars(out, "private ");
    } else if flags & 0x0004u16 != 0 {
        push_str_chars(out, "protected ");
    }
    if flags & 0x1000u16 != 0 {
        push_str_chars(out, "/* synthetic */ ");
    }
    if flags & 0x0008u16 != 0 {
        push_str_chars(out, "static ");
    }
    if flags & 0x0400u16 != 0 {
        push_str_chars(out, "abstract ");
    }
    proof {
        assert(final(out)@ =~= old(out)@ + spec_method_flags_head(flags));
    }
}

fn push_method_flags_tail(out: &mut Vec<char>, flags: u16)
    ensures
        final(out)@ == old(out)@ + spec_method_flags_tail(flags),
{
    if flags & 0x0010u16 != 0 {
        push_str_chars(out, "final ");
    }
    if flags & 0x0020u16 != 0 {
        push_str_chars(out, "synchronized ");
    }
    if flags & 0x0040u16 != 0 {
        push_str_chars(out, "/* bridge */ ");
    }
    if flags & 0x0800u16 != 0 {
        push_str_chars(out, "/* strict */ ");
    }
    if flags & 0x0100u16 != 0 {
        push_str_chars(out, "native ");
    }
    proof {
        assert(final(out)@ =~= old(out)@ + spec_method_flags_tail(flags));
    }
}

/// Appends the access-keyword prefix of a method declaration.
fn push_method_flags(out: &mut Vec<char>, flags: u16)
    ensures
        final(out)@ == old(out)@ + spec_method_flags(flags),
{
    let ghost before = out@;
    push_method_flags_head(out, flags);
    push_method_flags_tail(out, flags);
    proof {
        assert(final(out)@ =~= before + spec_method_flags(flags));
    }
}

/// Appends the simple (last-segment) form of an internal class name.
fn push_simple_name(out: &mut Vec<char>, class_name: &String)
    ensures
        final(out)@ == old(out)@ + spec_simple_name(class_name@),
{
    let class_chars = chars_from_str(class_name.as_str());
    proof {
        assert(class_chars@.skip(0) =~= class_chars@);
    }
    let start = simple_name_start(&class_chars, 0);
    let ghost out_head = out@;
    let mut k: usize = start;
    while k < class_chars.len()
        invariant
            start <= k <= class_chars@.len(),
            out@ == out_head + class_chars@.subrange(start as int, k as int),
            spec_simple_name(class_chars@.skip(0)) == class_chars@.skip(start as int),
            out_head == old(out)@,
            class_chars@ == class_name@,
        decreases class_chars@.len() - k,
    {
        out.push(class_chars[k]);
        assert(out@ =~= out_head + class_chars@.subrange(start as int, k as int + 1));
        k = k + 1;
    }
    proof {
        assert(class_chars@.subrange(start as int, class_chars@.len() as int) =~= class_chars@.skip(
            start as int,
        ));
        assert(class_chars@.skip(0) =~= class_chars@);
    }
}

/// The instruction bytes of a Code attribute: the framing words skipped,
/// the declared code length selecting the slice.
fn code_slice(bytes: &Vec<u8>) -> (r: Result<Vec<u8>, DecompileError>)
    ensures
        match r {
            Ok(code) => spec_code_slice(bytes@) == Ok::<_, DecompileError>(code@),
            Err(e) => spec_code_slice(bytes@) == Err::<Seq<u8>, _>(e),
        },
{
    if bytes.len() < 8 {
        return Err(DecompileError::TruncatedInput);
    }
    let hi = (bytes[4] as usize) * 256 + (bytes[5] as usize);
    let lo = (bytes[6] as usize) * 256 + (bytes[7] as usize);
    let cl = hi * 65536 + lo;
    proof {
        assert(cl == (spec_be16(bytes@[4], bytes@[5]) as int) * 65536 + (spec_be16(
            bytes@[6],
            bytes@[7],
        ) as int));
    }
    if cl > bytes.len() - 8 {
        return Err(DecompileError::TruncatedInput);
    }
    let end: usize = 8 + cl;
    let mut code: Vec<u8> = Vec::new();
    let mut k: usize = 8;
    while k < end
        invariant
            8 <= k <= end,
            end <= bytes@.len(),
            code@ == bytes@.subrange(8, k as int),
        decreases end - k,
    {
        code.push(bytes[k]);
        assert(code@ =~= bytes@.subrange(8, k as int + 1));
        k = k + 1;
    }
    Ok(code)
}

/// The method renderings of a class body from table position `j` on,
/// concatenated in order.
pub open spec fn spec_methods_from(
    pool: Seq<CPEntryV>,
    this_class: u16,
    methods: Seq<MemberInfoV>,
    j: int,
) -> Result<Seq<char>, DecompileError>
    decreases methods.len() - j,
{
    if j < 0 || j >= methods.len() {
        Ok(Seq::<char>::empty())
    } else {
        match spec_decompile_method(pool, this_class, methods[j]) {
            Ok(text) => match spec_methods_from(pool, this_class, methods, j + 1) {
                Ok(text2) => Ok(text + text2),
                Err(e) => Err(e),
            },
            Err(e) => Err(e),
        }
    }
}

/// The method section of a class body: each method rendered in table order.
/// The table's declared count selects how many entries are rendered.
#[verifier::rlimit(100)]
pub fn decompile_methods(class_file: &ClassFile) -> (r: Result<String, DecompileError>)
    requires
        class_file.methods.method_count as int <= class_file.methods.methods@.len(),
    ensures
        match r {
            Ok(s) => spec_methods_from(
                class_file.constant_pool@,
                class_file.this_class,
                class_file.methods.methods.deep_view().take(class_file.methods.method_count as int),
                0,
            ) == Ok::<_, DecompileError>(s@),
            Err(e) => spec_methods_from(
                class_file.constant_pool@,
                class_file.this_class,
                class_file.methods.methods.deep_view().take(class_file.methods.method_count as int),
                0,
            ) == Err::<Seq<char>, _>(e),
        },
{
    let ghost pool = class_file.constant_pool@;
    let ghost picked = class_file.methods.methods.deep_view().take(
        class_file.methods.method_count as int,
    );
    let mut out: Vec<char> = Vec::new();
    let n: usize = class_file.methods.method_count as usize;
    let mut j: usize = 0;
    while j < n
        invariant
            j <= n,
            n == class_file.methods.method_count as usize,
            n <= class_file.methods.methods@.len(),
            pool == class_file.constant_pool@,
            picked == class_file.methods.methods.deep_view().take(n as int),
            picked.len() == n,
            match spec_methods_from(pool, class_file.this_class, picked, j as int) {
                Ok(text2) => spec_methods_from(pool, class_file.this_class, picked, 0) == Ok::<
                    _,
                    DecompileError,
                >(out@ + text2),
                Err(e) => spec_methods_from(pool, class_file.this_class, picked, 0) == Err::<
                    Seq<char>,
                    _,
                >(e),
            },
        decreases n - j,
    {
        let ghost out0 = out@;
        let method_info = &class_file.methods.methods[j];
        proof {
            assert(class_file.methods.methods.deep_view()[j as int] == method_info.deep_view());
            assert(picked[j as int] == method_info@);
        }
        let mut method = Method::new(class_file.this_class, method_info, &class_file.constant_pool);
        let text = match method.decompile_method() {
            Ok(s) => s,
            Err(e) => {
                return Err(e);
            },
        };
        push_str_chars(&mut out, text.as_str());
        proof {
            let r2 = spec_methods_from(pool, class_file.this_class, picked, j as int + 1);
            match r2 {
                Ok(t2) => {
                    assert((out0 + text@) + t2 =~= out0 + (text@ + t2));
                },
                Err(_) => {},
            }
        }
        j = j + 1;
    }
    proof {
        assert(out@ + Seq::<char>::empty() =~= out@);
    }
    Ok(string_from_chars(out))
}

} // verus!
