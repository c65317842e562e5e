//! The type-descriptor decoder: a descriptor string becomes a display type
//! name, recursively over array dimensions.

use vstd::prelude::*;

use crate::error::DecompileError;
use crate::text::{chars_from_str, push_str_chars, string_from_chars};

verus! {

/// One character of a class-name rewrite: `/` becomes `.`, `;` is dropped,
/// everything else stays.
pub open spec fn spec_dot_one(c: char) -> Seq<char> {
    if c == ';' {
        Seq::<char>::empty()
    } else if c == '/' {
        seq!['.']
    } else {
        seq![c]
    }
}

/// An internal binary class name rewritten for display: `/` separators
/// become `.` and the terminal `;` markers are dropped.
pub open spec fn spec_dot_strip(s: Seq<char>) -> Seq<char>
    decreases s.len(),
{
    if s.len() == 0 {
        Seq::<char>::empty()
    } else {
        spec_dot_one(s[0]) + spec_dot_strip(s.drop_first())
    }
}

/// The display type a descriptor decodes to: a single letter for a primitive
/// or `void`, `L<name>;` for a class, a leading `[` for one array dimension.
/// Any other leading character is a fatal decode error.
pub open spec fn spec_descriptor_type(d: Seq<char>) -> Result<Seq<char>, DecompileError>
    decreases d.len(),
{
    if d.len() == 0 {
        Err(DecompileError::InvalidDescriptor)
    } else if d[0] == 'B' {
        Ok("byte"@)
    } else if d[0] == 'C' {
        Ok("char"@)
    } else if d[0] == 'D' {
        Ok("double"@)
    } else if d[0] == 'F' {
        Ok("float"@)
    } else if d[0] == 'I' {
        Ok("int"@)
    } else if d[0] == 'J' {
        Ok("long"@)
    } else if d[0] == 'S' {
        Ok("short"@)
    } else if d[0] == 'V' {
        Ok("void"@)
    } else if d[0] == 'Z' {
        Ok("boolean"@)
    } else if d[0] == 'L' {
        Ok(spec_dot_strip(d.drop_first()))
    } else if d[0] == '[' {
        match spec_descriptor_type(d.drop_first()) {
            Ok(t) => Ok(t + "[]"@),
            Err(e) => Err(e),
        }
    } else {
        Err(DecompileError::InvalidDescriptor)
    }
}

proof fn lemma_dot_strip_push(s: Seq<char>, c: char)
    ensures
        spec_dot_strip(s.push(c)) == spec_dot_strip(s) + spec_dot_one(c),
    decreases s.len(),
{
    if s.len() == 0 {
        let t = s.push(c);
        assert(t.len() == 1 && t[0] == c);
        assert(t.drop_first() =~= Seq::<char>::empty());
        assert(spec_dot_strip(t.drop_first()) == Seq::<char>::empty());
        assert(spec_dot_strip(t) == spec_dot_one(c) + spec_dot_strip(t.drop_first()));
        assert(spec_dot_strip(s.push(c)) =~= spec_dot_strip(s) + spec_dot_one(c));
    } else {
        let t = s.push(c);
        assert(t.len() == s.len() + 1 && t[0] == s[0]);
        assert(t.drop_first() =~= s.drop_first().push(c));
        lemma_dot_strip_push(s.drop_first(), c);
        assert(spec_dot_strip(t) == spec_dot_one(s[0]) + spec_dot_strip(t.drop_first()));
        assert(spec_dot_strip(s.push(c)) =~= spec_dot_strip(s) + spec_dot_one(c));
    }
}

/// Appends to `out` the rewrite of `d[from..]` with `/` as `.` and `;`
/// removed.
pub(crate) fn push_dot_strip(out: &mut Vec<char>, d: &Vec<char>, from: usize)
    requires
        from <= d@.len(),
    ensures
        final(out)@ == old(out)@ + spec_dot_strip(d@.skip(from as int)),
{
    let ghost tail = d@.skip(from as int);
    let mut j: usize = from;
    while j < d.len()
        invariant
            from <= j <= d@.len(),
            tail == d@.skip(from as int),
            out@ == old(out)@ + spec_dot_strip(d@.subrange(from as int, j as int)),
        decreases d@.len() - j,
    {
        let c = d[j];
        proof {
            lemma_dot_strip_push(d@.subrange(from as int, j as int), c);
            assert(d@.subrange(from as int, j as int).push(c) =~= d@.subrange(
                from as int,
                j as int + 1,
            ));
        }
        if c == '/' {
            out.push('.');
        } else if c == ';' {
            // dropped
        } else {
            out.push(c);
        }
        assert(out@ =~= old(out)@ + spec_dot_strip(d@.subrange(from as int, j as int + 1)));
        j = j + 1;
    }
    assert(d@.subrange(from as int, d@.len() as int) =~= d@.skip(from as int));
}

/// Decodes the descriptor starting at `d[from..]` into a display type.
pub(crate) fn descriptor_chars(d: &Vec<char>, from: usize) -> (r: Result<Vec<char>, DecompileError>)
    requires
        from <= d@.len(),
    ensures
        match r {
            Ok(t) => spec_descriptor_type(d@.skip(from as int)) == Ok::<_, DecompileError>(t@),
            Err(e) => spec_descriptor_type(d@.skip(from as int)) == Err::<Seq<char>, _>(e),
        },
    decreases d@.len() - from,
{
    let ghost tail = d@.skip(from as int);
    if from == d.len() {
        return Err(DecompileError::InvalidDescriptor);
    }
    let c = d[from];
    proof {
        assert(tail.len() > 0 && tail[0] == d@[from as int]);
        assert(tail.drop_first() =~= d@.skip(from as int + 1));
    }
    if c == 'B' {
        Ok(chars_from_str("byte"))
    } else if c == 'C' {
        Ok(chars_from_str("char"))
    } else if c == 'D' {
        Ok(chars_from_str("double"))
    } else if c == 'F' {
        Ok(chars_from_str("float"))
    } else if c == 'I' {
        Ok(chars_from_str("int"))
    } else if c == 'J' {
        Ok(chars_from_str("long"))
    } else if c == 'S' {
        Ok(chars_from_str("short"))
    } else if c == 'V' {
        Ok(chars_from_str("void"))
    } else if c == 'Z' {
        Ok(chars_from_str("boolean"))
    } else if c == 'L' {
        let mut out: Vec<char> = Vec::new();
        push_dot_strip(&mut out, d, from + 1);
        Ok(out)
    } else if c == '[' {
        match descriptor_chars(d, from + 1) {
            Ok(mut t) => {
                push_str_chars(&mut t, "[]");
                Ok(t)
            },
            Err(e) => Err(e),
        }
    } else {
        Err(DecompileError::InvalidDescriptor)
    }
}

/// Decodes a type descriptor into its display name: primitives and `void`
/// by letter, `L<name>;` to the dotted class name, `[` to a trailing `[]`
/// per dimension. A descriptor with any other leading character fails the
/// unit.
pub fn get_type(value_string: String) -> (r: Result<String, DecompileError>)
    ensures
        match r {
            Ok(t) => spec_descriptor_type(value_string@) == Ok::<_, DecompileError>(t@),
            Err(e) => spec_descriptor_type(value_string@) == Err::<Seq<char>, _>(e),
        },
{
    let d = chars_from_str(value_string.as_str());
    proof {
        assert(d@.skip(0) =~= d@);
    }
    match descriptor_chars(&d, 0) {
        Ok(t) => Ok(string_from_chars(t)),
        Err(e) => Err(e),
    }
}

} // verus!
