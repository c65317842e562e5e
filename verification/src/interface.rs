//! The `implements` list: each implemented interface's name, dotted, with a
//! trailing space, in table order.

use vstd::prelude::*;

use crate::classfile::InterfacePool;
use crate::constant_pool::{spec_class_name_at, CPEntryV, ConstantPool};
use crate::error::DecompileError;
use crate::text::{push_str_chars, string_from_chars};
use crate::value::{push_dot_strip, spec_dot_strip};

verus! {

/// The rendering of one implemented interface: its name with `/` as `.`,
/// then one space.
pub open spec fn spec_interface_one(pool: Seq<CPEntryV>, index: u16) -> Result<
    Seq<char>,
    DecompileError,
> {
    match spec_class_name_at(pool, index) {
        Ok(name) => Ok(spec_dot_strip(name) + " "@),
        Err(e) => Err(e),
    }
}

/// The rendering of the interfaces at `indexes[j..]`, concatenated in
/// order.
pub open spec fn spec_interfaces_from(pool: Seq<CPEntryV>, indexes: Seq<u16>, j: int) -> Result<
    Seq<char>,
    DecompileError,
>
    decreases indexes.len() - j,
{
    if j < 0 || j >= indexes.len() {
        Ok(Seq::<char>::empty())
    } else {
        match spec_interface_one(pool, indexes[j]) {
            Ok(text) => match spec_interfaces_from(pool, indexes, j + 1) {
                Ok(text2) => Ok(text + text2),
                Err(e) => Err(e),
            },
            Err(e) => Err(e),
        }
    }
}

/// The name of the interface whose `Class` entry sits at `index`.
pub fn get_interface_name(index: u16, constant_pool: &ConstantPool) -> (r: Result<
    String,
    DecompileError,
>)
    ensures
        match r {
            Ok(s) => spec_class_name_at(constant_pool@, index) == Ok::<_, DecompileError>(s@),
            Err(e) => spec_class_name_at(constant_pool@, index) == Err::<Seq<char>, _>(e),
        },
{
    constant_pool.class_name_at(index)
}


/// The space-separated `implements` list of a class: each interface name
/// dotted, in table order. The table's declared count selects how many
/// entries are rendered.
pub fn get_interfaces(interfaces: &InterfacePool, constant_pool: &ConstantPool) -> (r: Result<
    String,
    DecompileError,
>)
    requires
        interfaces.interface_count as int <= interfaces.interfaces@.len(),
    ensures
        match r {
            Ok(s) => spec_interfaces_from(
                constant_pool@,
                interfaces.interfaces@.take(interfaces.interface_count as int),
                0,
            ) == Ok::<_, DecompileError>(s@),
            Err(e) => spec_interfaces_from(
                constant_pool@,
                interfaces.interfaces@.take(interfaces.interface_count as int),
                0,
            ) == Err::<Seq<char>, _>(e),
        },
{
    let ghost pool = constant_pool@;
    let ghost picked = interfaces.interfaces@.take(interfaces.interface_count as int);
    let mut out: Vec<char> = Vec::new();
    let n: usize = interfaces.interface_count as usize;
    let mut j: usize = 0;
    while j < n
        invariant
            j <= n,
            n <= interfaces.interfaces@.len(),
            n == interfaces.interface_count as usize,
            pool == constant_pool@,
            picked == interfaces.interfaces@.take(n as int),
            picked.len() == n,
            match spec_interfaces_from(pool, picked, j as int) {
                Ok(text2) => spec_interfaces_from(pool, picked, 0) == Ok::<_, DecompileError>(
                    out@ + text2,
                ),
                Err(e) => spec_interfaces_from(pool, picked, 0) == Err::<Seq<char>, _>(e),
            },
        decreases n - j,
    {
        let ghost out0 = out@;
        let index = interfaces.interfaces[j];
        proof {
            assert(picked[j as int] == index);
        }
        let name = match constant_pool.class_name_at(index) {
            Ok(s) => s,
            Err(e) => {
                proof {
                    assert(spec_interface_one(pool, picked[j as int]) == Err::<
                        Seq<char>,
                        DecompileError,
                    >(e));
                    assert(spec_interfaces_from(pool, picked, j as int) == Err::<Seq<char>, _>(e));
                    assert(spec_interfaces_from(pool, picked, 0) == Err::<Seq<char>, _>(e));
                    assert(picked == interfaces.interfaces@.take(
                        interfaces.interface_count as int,
                    ));
                    assert(spec_interfaces_from(
                        constant_pool@,
                        interfaces.interfaces@.take(interfaces.interface_count as int),
                        0,
                    ) == Err::<Seq<char>, DecompileError>(e));
                }
                return Err(e);
            },
        };
        let name_chars = crate::text::chars_from_str(name.as_str());
        proof {
            assert(name_chars@.skip(0) =~= name_chars@);
        }
        push_dot_strip(&mut out, &name_chars, 0);
        push_str_chars(&mut out, " ");
        proof {
            let one = spec_dot_strip(name_chars@) + " "@;
            assert(out@ =~= out0 + one);
            assert(spec_interface_one(pool, picked[j as int]) == Ok::<_, DecompileError>(one));
            let r2 = spec_interfaces_from(pool, picked, j as int + 1);
            match r2 {
                Ok(t2) => {
                    assert((out0 + one) + t2 =~= out0 + (one + t2));
                },
                Err(_) => {},
            }
        }
        j = j + 1;
    }
    proof {
        assert(out@ + Seq::<char>::empty() =~= out@);
    }
    Ok(string_from_chars(out))
}

} // verus!
