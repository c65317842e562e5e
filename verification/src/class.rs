//! The class declaration line: access keywords, the class's simple name,
//! its superclass, and the implemented interfaces.

use vstd::prelude::*;

use crate::classfile::ClassFile;
use crate::constant_pool::{spec_class_name_at, CPEntryV, ConstantPool};
use crate::error::DecompileError;
use crate::interface::{get_interfaces, spec_interfaces_from};
use crate::text::{chars_from_str, push_str_chars, string_from_chars};
use crate::value::{push_dot_strip, spec_dot_strip};

verus! {

/// The first index of `c` in `s`, or a negative value when `c` does not
/// occur.
pub open spec fn spec_find_char(s: Seq<char>, c: char) -> int
    decreases s.len(),
{
    if s.len() == 0 {
        -1
    } else if s[0] == c {
        0
    } else {
        let r = spec_find_char(s.drop_first(), c);
        if r < 0 {
            -1
        } else {
            r + 1
        }
    }
}

/// The text after the last `/` of an internal class name: the class's
/// simple name.
pub open spec fn spec_simple_name(s: Seq<char>) -> Seq<char>
    decreases s.len(),
{
    let i = spec_find_char(s, '/');
    if i < 0 || i >= s.len() {
        s
    } else {
        spec_simple_name(s.skip(i + 1))
    }
}

pub(crate) proof fn lemma_find_char_at(s: Seq<char>, c: char, i: int)
    requires
        0 <= i < s.len(),
        s[i] == c,
        forall|j: int| 0 <= j < i ==> s[j] != c,
    ensures
        spec_find_char(s, c) == i,
    decreases i,
{
    if i == 0 {
    } else {
        let d = s.drop_first();
        assert(forall|j: int| 0 <= j < i - 1 ==> #[trigger] d[j] != c);
        lemma_find_char_at(d, c, i - 1);
    }
}

pub(crate) proof fn lemma_find_char_none(s: Seq<char>, c: char)
    requires
        forall|j: int| 0 <= j < s.len() ==> s[j] != c,
    ensures
        spec_find_char(s, c) < 0,
    decreases s.len(),
{
    if s.len() == 0 {
    } else {
        let d = s.drop_first();
        assert(forall|j: int| 0 <= j < d.len() ==> #[trigger] d[j] != c);
        lemma_find_char_none(d, c);
    }
}

/// The start of the simple name inside `d[from..]`: the position after the
/// last `/`, or `from` itself when none occurs.
pub(crate) fn simple_name_start(d: &Vec<char>, from: usize) -> (r: usize)
    requires
        from <= d@.len(),
    ensures
        from <= r <= d@.len(),
        spec_simple_name(d@.skip(from as int)) == d@.skip(r as int),
    decreases d@.len() - from,
{
    let ghost tail = d@.skip(from as int);
    let mut i: usize = from;
    while i < d.len() && d[i] != '/'
        invariant
            from <= i <= d@.len(),
            tail == d@.skip(from as int),
            forall|j: int| from <= j < i ==> d@[j] != '/',
        decreases d@.len() - i,
    {
        i = i + 1;
    }
    if i == d.len() {
        proof {
            assert(forall|j: int| 0 <= j < tail.len() ==> #[trigger] tail[j] != '/');
            lemma_find_char_none(tail, '/');
        }
        from
    } else {
        proof {
            assert(tail[i - from] == '/');
            assert(forall|j: int| 0 <= j < i - from ==> #[trigger] tail[j] != '/');
            lemma_find_char_at(tail, '/', i as int - from as int);
            assert(tail.skip(i as int - from as int + 1) =~= d@.skip(i as int + 1));
        }
        simple_name_start(d, i + 1)
    }
}

/// The class declaration's access keywords, in the rendering order.
pub open spec fn spec_class_flags(flags: u16) -> Seq<char> {
    (if flags & 0x0001u16 != 0 {
        "public "@
    } else {
        Seq::<char>::empty()
    }) + (if flags & 0x1000u16 != 0 {
        "/* synthetic */"@
    } else {
        Seq::<char>::empty()
    }) + (if flags & 0x0400u16 != 0 {
        if flags & 0x0200u16 == 0 {
            "abstract "@
        } else {
            (if flags & 0x2000u16 != 0 {
                "@"@
            } else {
                Seq::<char>::empty()
            }) + "interface "@
        }
    } else if flags & 0x4000u16 != 0 {
        "enum "@
    } else {
        (if flags & 0x0010u16 != 0 {
            "final "@
        } else {
            Seq::<char>::empty()
        }) + "class "@
    })
}

/// The whole class declaration line: keywords, the class's simple name,
/// ` extends ` and the dotted superclass name, and, when interfaces are
/// implemented, `implements ` and their list.
pub open spec fn spec_class_signature(
    pool: Seq<CPEntryV>,
    flags: u16,
    this_class: u16,
    super_class: u16,
    interfaces: Seq<u16>,
) -> Result<Seq<char>, DecompileError> {
    match spec_class_name_at(pool, this_class) {
        Ok(this_name) => match spec_class_name_at(pool, super_class) {
            Ok(super_name) => {
                let base = spec_class_flags(flags) + spec_simple_name(this_name) + " extends "@
                    + spec_dot_strip(super_name) + " "@;
                if interfaces.len() > 0 {
                    match spec_interfaces_from(pool, interfaces, 0) {
                        Ok(list) => Ok(base + "implements "@ + list),
                        Err(e) => Err(e),
                    }
                } else {
                    Ok(base)
                }
            },
            Err(e) => Err(e),
        },
        Err(e) => Err(e),
    }
}

/// The internal (slash-separated) name of the class whose `Class` entry
/// sits at `index`: the entry points at the `Utf8` entry holding the name.
/// A kind mismatch against that expectation fails the unit.
pub fn get_class_name(index: u16, constant_pool: &ConstantPool) -> (r: Result<
    String,
    DecompileError,
>)
    ensures
        match r {
            Ok(s) => spec_class_name_at(constant_pool@, index) == Ok::<_, DecompileError>(s@),
            Err(e) => spec_class_name_at(constant_pool@, index) == Err::<Seq<char>, _>(e),
        },
{
    constant_pool.class_name_at(index)
}

/// The class declaration line of a class file.
pub fn generate_signature_code(class_file: &ClassFile) -> (r: Result<String, DecompileError>)
    requires
        class_file.interfaces.interface_count as int <= class_file.interfaces.interfaces@.len(),
    ensures
        match r {
            Ok(s) => spec_class_signature(
                class_file.constant_pool@,
                class_file.access_flags,
                class_file.this_class,
                class_file.super_class,
                class_file.interfaces.interfaces@.take(
                    class_file.interfaces.interface_count as int,
                ),
            ) == Ok::<_, DecompileError>(s@),
            Err(e) => spec_class_signature(
                class_file.constant_pool@,
                class_file.access_flags,
                class_file.this_class,
                class_file.super_class,
                class_file.interfaces.interfaces@.take(
                    class_file.interfaces.interface_count as int,
                ),
            ) == Err::<Seq<char>, _>(e),
        },
{
    let flags = class_file.access_flags;
    let this_name = match class_file.constant_pool.class_name_at(class_file.this_class) {
        Ok(s) => s,
        Err(e) => {
            return Err(e);
        },
    };
    let super_name = match class_file.constant_pool.class_name_at(class_file.super_class) {
        Ok(s) => s,
        Err(e) => {
            return Err(e);
        },
    };
    let mut out: Vec<char> = Vec::new();
    if flags & 0x0001u16 != 0 {
        push_str_chars(&mut out, "public ");
    }
    if flags & 0x1000u16 != 0 {
        push_str_chars(&mut out, "/* synthetic */");
    }
    if flags & 0x0400u16 != 0 {
        if flags & 0x0200u16 == 0 {
            push_str_chars(&mut out, "abstract ");
        } else {
            if flags & 0x2000u16 != 0 {
                push_str_chars(&mut out, "@");
            }
            push_str_chars(&mut out, "interface ");
        }
    } else if flags & 0x4000u16 != 0 {
        push_str_chars(&mut out, "enum ");
    } else {
        if flags & 0x0010u16 != 0 {
            push_str_chars(&mut out, "final ");
        }
        push_str_chars(&mut out, "class ");
    }
    proof {
        assert(out@ =~= spec_class_flags(flags));
    }
    let this_chars = chars_from_str(this_name.as_str());
    proof {
        assert(this_chars@.skip(0) =~= this_chars@);
    }
    let start = simple_name_start(&this_chars, 0);
    let ghost out_flags = out@;
    let mut k: usize = start;
    while k < this_chars.len()
        invariant
            start <= k <= this_chars@.len(),
            out@ == out_flags + this_chars@.subrange(start as int, k as int),
        decreases this_chars@.len() - k,
    {
        out.push(this_chars[k]);
        assert(out@ =~= out_flags + this_chars@.subrange(start as int, k as int + 1));
        k = k + 1;
    }
    proof {
        assert(this_chars@.subrange(start as int, this_chars@.len() as int) =~= this_chars@.skip(
            start as int,
        ));
    }
    push_str_chars(&mut out, " extends ");
    let super_chars = chars_from_str(super_name.as_str());
    proof {
        assert(super_chars@.skip(0) =~= super_chars@);
    }
    push_dot_strip(&mut out, &super_chars, 0);
    push_str_chars(&mut out, " ");
    if class_file.interfaces.interface_count > 0 {
        push_str_chars(&mut out, "implements ");
        let list = match get_interfaces(&class_file.interfaces, &class_file.constant_pool) {
            Ok(s) => s,
            Err(e) => {
                return Err(e);
            },
        };
        push_str_chars(&mut out, list.as_str());
    }
    Ok(string_from_chars(out))
}

} // verus!
