//! The closed set of display types inferred for reconstructed values.

use vstd::prelude::*;

use crate::error::DecompileError;
use crate::text::{push_str_chars, string_from_chars};

verus! {

/// A display type: a primitive, `void`, a named class, an array of another
/// type, or `Unknown` when no static type can be derived (an accepted
/// terminal state for reference loads, not an error).
pub enum Type {
    Byte,
    Char,
    Double,
    Float,
    Int,
    Long,
    Class(String),
    Short,
    Boolean,
    Array(Box<Type>),
    Void,
    Unknown,
}

/// The mathematical model of a display type: class names are character
/// sequences.
pub ghost enum TypeV {
    Byte,
    Char,
    Double,
    Float,
    Int,
    Long,
    Class(Seq<char>),
    Short,
    Boolean,
    Array(Box<TypeV>),
    Void,
    Unknown,
}

/// The model of a `Type` value.
pub open spec fn spec_view_type(t: Type) -> TypeV
    decreases t,
{
    match t {
        Type::Byte => TypeV::Byte,
        Type::Char => TypeV::Char,
        Type::Double => TypeV::Double,
        Type::Float => TypeV::Float,
        Type::Int => TypeV::Int,
        Type::Long => TypeV::Long,
        Type::Class(name) => TypeV::Class(name@),
        Type::Short => TypeV::Short,
        Type::Boolean => TypeV::Boolean,
        Type::Array(inner) => TypeV::Array(Box::new(spec_view_type(*inner))),
        Type::Void => TypeV::Void,
        Type::Unknown => TypeV::Unknown,
    }
}

impl View for Type {
    type V = TypeV;

    open spec fn view(&self) -> TypeV {
        spec_view_type(*self)
    }
}

impl DeepView for Type {
    type V = TypeV;

    open spec fn deep_view(&self) -> TypeV {
        self.view()
    }
}

/// The Java source rendering of a type name.
pub open spec fn spec_type_text(t: TypeV) -> Seq<char>
    decreases t,
{
    match t {
        TypeV::Byte => "byte"@,
        TypeV::Char => "char"@,
        TypeV::Double => "double"@,
        TypeV::Float => "float"@,
        TypeV::Int => "int"@,
        TypeV::Long => "long"@,
        TypeV::Class(name) => name,
        TypeV::Short => "short"@,
        TypeV::Boolean => "boolean"@,
        TypeV::Array(inner) => spec_type_text(*inner) + "[]"@,
        TypeV::Void => "void"@,
        TypeV::Unknown => "unknown"@,
    }
}

/// True of the types that occupy two operand-stack slots.
pub open spec fn spec_is_two_slot(t: TypeV) -> bool {
    t == TypeV::Long || t == TypeV::Double
}

/// The element type of an array type: strips array dimensions until a
/// non-array type is found. A non-array argument is a caller defect.
pub open spec fn spec_strip_array(t: TypeV) -> Result<TypeV, DecompileError>
    decreases t,
{
    match t {
        TypeV::Array(inner) => match *inner {
            TypeV::Array(_) => spec_strip_array(*inner),
            other => Ok(other),
        },
        _ => Err(DecompileError::NotAnArrayType),
    }
}

/// The element type named by a `newarray` type code.
pub open spec fn spec_from_array_code(code: u8) -> Result<TypeV, DecompileError> {
    if code == 4 {
        Ok(TypeV::Boolean)
    } else if code == 5 {
        Ok(TypeV::Char)
    } else if code == 6 {
        Ok(TypeV::Float)
    } else if code == 7 {
        Ok(TypeV::Double)
    } else if code == 8 {
        Ok(TypeV::Byte)
    } else if code == 9 {
        Ok(TypeV::Short)
    } else if code == 10 {
        Ok(TypeV::Int)
    } else if code == 11 {
        Ok(TypeV::Long)
    } else {
        Err(DecompileError::UnsupportedOpcode)
    }
}

/// Appends the Java rendering of `t` to `out`.
pub fn push_type_text(out: &mut Vec<char>, t: &Type)
    ensures
        final(out)@ == old(out)@ + spec_type_text(t@),
    decreases *t,
{
    match t {
        Type::Byte => push_str_chars(out, "byte"),
        Type::Char => push_str_chars(out, "char"),
        Type::Double => push_str_chars(out, "double"),
        Type::Float => push_str_chars(out, "float"),
        Type::Int => push_str_chars(out, "int"),
        Type::Long => push_str_chars(out, "long"),
        Type::Class(name) => push_str_chars(out, name.as_str()),
        Type::Short => push_str_chars(out, "short"),
        Type::Boolean => push_str_chars(out, "boolean"),
        Type::Array(inner) => {
            push_type_text(out, inner);
            push_str_chars(out, "[]");
        },
        Type::Void => push_str_chars(out, "void"),
        Type::Unknown => push_str_chars(out, "unknown"),
    }
}

impl Type {
    /// The Java source rendering of the type, such as `int[][]`.
    pub fn display_name(&self) -> (r: String)
        ensures
            r@ == spec_type_text(self@),
    {
        let mut out: Vec<char> = Vec::new();
        push_type_text(&mut out, self);
        string_from_chars(out)
    }

    /// True of `long` and `double`, the types that occupy two stack slots.
    pub fn is_two_slot(&self) -> (r: bool)
        ensures
            r == spec_is_two_slot(self@),
    {
        matches!(self, Type::Long | Type::Double)
    }

    /// A copy of the type, equal to the original in the model.
    pub fn dup(&self) -> (r: Type)
        ensures
            r@ == self@,
        decreases *self,
    {
        match self {
            Type::Byte => Type::Byte,
            Type::Char => Type::Char,
            Type::Double => Type::Double,
            Type::Float => Type::Float,
            Type::Int => Type::Int,
            Type::Long => Type::Long,
            Type::Class(name) => Type::Class(name.clone()),
            Type::Short => Type::Short,
            Type::Boolean => Type::Boolean,
            Type::Array(inner) => Type::Array(Box::new(inner.dup())),
            Type::Void => Type::Void,
            Type::Unknown => Type::Unknown,
        }
    }

    /// The element type named by a `newarray` type code; any code outside
    /// the authored table is refused.
    pub fn from_array_code(code: u8) -> (r: Result<Type, DecompileError>)
        ensures
            match r {
                Ok(t) => spec_from_array_code(code) == Ok::<_, DecompileError>(t@),
                Err(e) => spec_from_array_code(code) == Err::<TypeV, _>(e),
            },
    {
        match code {
            4 => Ok(Type::Boolean),
            5 => Ok(Type::Char),
            6 => Ok(Type::Float),
            7 => Ok(Type::Double),
            8 => Ok(Type::Byte),
            9 => Ok(Type::Short),
            10 => Ok(Type::Int),
            11 => Ok(Type::Long),
            _ => Err(DecompileError::UnsupportedOpcode),
        }
    }
}

/// An array-of-named-class type value.
pub fn class_array(name: String) -> (r: Type)
    ensures
        r@ == TypeV::Array(Box::new(TypeV::Class(name@))),
{
    let ghost n = name@;
    let inner = Type::Class(name);
    assert(inner@ == TypeV::Class(n));
    let r = Type::Array(Box::new(inner));
    assert(r@ == TypeV::Array(Box::new(TypeV::Class(n))));
    r
}

/// The element type of an array type; asking it of a non-array type is a
/// caller defect and fails the unit.
pub fn get_array_type(ty: Type) -> (r: Result<Type, DecompileError>)
    ensures
        match r {
            Ok(t) => spec_strip_array(ty@) == Ok::<_, DecompileError>(t@),
            Err(e) => spec_strip_array(ty@) == Err::<TypeV, _>(e),
        },
    decreases ty,
{
    match ty {
        Type::Array(inner) => {
            let element: Type = *inner;
            if matches!(&element, Type::Array(_)) {
                get_array_type(element)
            } else {
                Ok(element)
            }
        },
        _ => Err(DecompileError::NotAnArrayType),
    }
}

} // verus!
