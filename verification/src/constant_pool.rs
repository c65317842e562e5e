//! The constant pool: a read-only, 1-based indexed table of tagged
//! constants, consumed everywhere by the decompiler.
//!
//! Eight-byte constants (`Long`, `Double`) occupy two consecutive slots; the
//! second slot is a placeholder. `Float` and `Double` entries carry their
//! raw big-endian bit patterns: the library holds no floating-point values,
//! and renders such literals from the bits.

use vstd::prelude::*;

use crate::error::DecompileError;

verus! {

/// One tagged constant-pool entry.
pub enum CPIndexType {
    Class(u16),
    FieldRef { class_index: u16, name_and_type_index: u16 },
    MethodRef { class_index: u16, name_and_type_index: u16 },
    InterfaceMethodRef { class_index: u16, name_and_type_index: u16 },
    String(u16),
    Integer(u32),
    Float(u32),
    Long(u64),
    Double(u64),
    NameAndType { name_index: u16, descriptor_index: u16 },
    Utf8(String),
    MethodHandle { reference_type: u8, reference_index: u16 },
    MethodType { descriptor_index: u16 },
    InvokeDynamic { bootstrap_method_attr_index: u16, name_and_type_index: u16 },
}

/// The model of a constant-pool entry: text entries are character sequences.
pub ghost enum CPEntryV {
    Class(u16),
    FieldRef { class_index: u16, name_and_type_index: u16 },
    MethodRef { class_index: u16, name_and_type_index: u16 },
    InterfaceMethodRef { class_index: u16, name_and_type_index: u16 },
    String(u16),
    Integer(u32),
    Float(u32),
    Long(u64),
    Double(u64),
    NameAndType { name_index: u16, descriptor_index: u16 },
    Utf8(Seq<char>),
    MethodHandle { reference_type: u8, reference_index: u16 },
    MethodType { descriptor_index: u16 },
    InvokeDynamic { bootstrap_method_attr_index: u16, name_and_type_index: u16 },
}

impl View for CPIndexType {
    type V = CPEntryV;

    open spec fn view(&self) -> CPEntryV {
        match *self {
            CPIndexType::Class(i) => CPEntryV::Class(i),
            CPIndexType::FieldRef { class_index, name_and_type_index } => CPEntryV::FieldRef {
                class_index,
                name_and_type_index,
            },
            CPIndexType::MethodRef { class_index, name_and_type_index } => CPEntryV::MethodRef {
                class_index,
                name_and_type_index,
            },
            CPIndexType::InterfaceMethodRef {
                class_index,
                name_and_type_index,
            } => CPEntryV::InterfaceMethodRef { class_index, name_and_type_index },
            CPIndexType::String(i) => CPEntryV::String(i),
            CPIndexType::Integer(v) => CPEntryV::Integer(v),
            CPIndexType::Float(bits) => CPEntryV::Float(bits),
            CPIndexType::Long(v) => CPEntryV::Long(v),
            CPIndexType::Double(bits) => CPEntryV::Double(bits),
            CPIndexType::NameAndType { name_index, descriptor_index } => CPEntryV::NameAndType {
                name_index,
                descriptor_index,
            },
            CPIndexType::Utf8(ref s) => CPEntryV::Utf8(s@),
            CPIndexType::MethodHandle { reference_type, reference_index } => CPEntryV::MethodHandle {
                reference_type,
                reference_index,
            },
            CPIndexType::MethodType { descriptor_index } => CPEntryV::MethodType {
                descriptor_index,
            },
            CPIndexType::InvokeDynamic {
                bootstrap_method_attr_index,
                name_and_type_index,
            } => CPEntryV::InvokeDynamic { bootstrap_method_attr_index, name_and_type_index },
        }
    }
}

impl DeepView for CPIndexType {
    type V = CPEntryV;

    open spec fn deep_view(&self) -> CPEntryV {
        self.view()
    }
}

/// The entry at a 1-based pool index; index zero and indexes past the end
/// are invalid.
pub open spec fn spec_entry(pool: Seq<CPEntryV>, index: u16) -> Result<CPEntryV, DecompileError> {
    if 1 <= index && index <= pool.len() {
        Ok(pool[index - 1])
    } else {
        Err(DecompileError::InvalidPoolIndex)
    }
}

/// The text of the `Utf8` entry at `index`; any other kind there is a
/// mismatch against the caller's expectation.
pub open spec fn spec_utf8_at(pool: Seq<CPEntryV>, index: u16) -> Result<Seq<char>, DecompileError> {
    match spec_entry(pool, index) {
        Ok(CPEntryV::Utf8(s)) => Ok(s),
        Ok(_) => Err(DecompileError::PoolKindMismatch),
        Err(e) => Err(e),
    }
}

/// The name of the class whose `Class` entry sits at `index`: the `Class`
/// entry points at the `Utf8` entry holding the internal name.
pub open spec fn spec_class_name_at(pool: Seq<CPEntryV>, index: u16) -> Result<
    Seq<char>,
    DecompileError,
> {
    match spec_entry(pool, index) {
        Ok(CPEntryV::Class(name_index)) => spec_utf8_at(pool, name_index),
        Ok(_) => Err(DecompileError::PoolKindMismatch),
        Err(e) => Err(e),
    }
}

/// The per-class constant pool.
pub struct ConstantPool {
    pub index_count: u16,
    pub indexes: Vec<CPIndexType>,
}

impl View for ConstantPool {
    type V = Seq<CPEntryV>;

    open spec fn view(&self) -> Seq<CPEntryV> {
        self.indexes.deep_view()
    }
}

impl ConstantPool {
    /// A pool over the given entries. `index_count` is the class file's
    /// declared count, one more than the number of slots.
    pub fn new(index_count: u16, indexes: Vec<CPIndexType>) -> (r: ConstantPool)
        ensures
            r.index_count == index_count,
            r@ == indexes.deep_view(),
    {
        ConstantPool { index_count, indexes }
    }

    /// The entry at a 1-based index. Lookups are read-only: the pool is
    /// never changed by a lookup.
    pub fn get_index(&self, index: u16) -> (r: Result<&CPIndexType, DecompileError>)
        ensures
            match r {
                Ok(e) => spec_entry(self@, index) == Ok::<_, DecompileError>(e@),
                Err(e) => spec_entry(self@, index) == Err::<CPEntryV, _>(e),
            },
    {
        if index >= 1 && (index as usize) <= self.indexes.len() {
            let e = &self.indexes[(index - 1) as usize];
            assert(e.deep_view() == self@[index - 1]);
            Ok(e)
        } else {
            Err(DecompileError::InvalidPoolIndex)
        }
    }

    /// The internal name of the class named by the `Class` entry at `index`.
    pub fn class_name_at(&self, index: u16) -> (r: Result<String, DecompileError>)
        ensures
            match r {
                Ok(s) => spec_class_name_at(self@, index) == Ok::<_, DecompileError>(s@),
                Err(e) => spec_class_name_at(self@, index) == Err::<Seq<char>, _>(e),
            },
    {
        match self.get_index(index) {
            Ok(CPIndexType::Class(name_index)) => self.utf8_at(*name_index),
            Ok(_) => Err(DecompileError::PoolKindMismatch),
            Err(e) => Err(e),
        }
    }

    /// The text of the `Utf8` entry at `index`.
    pub fn utf8_at(&self, index: u16) -> (r: Result<String, DecompileError>)
        ensures
            match r {
                Ok(s) => spec_utf8_at(self@, index) == Ok::<_, DecompileError>(s@),
                Err(e) => spec_utf8_at(self@, index) == Err::<Seq<char>, _>(e),
            },
    {
        match self.get_index(index) {
            Ok(CPIndexType::Utf8(s)) => Ok(s.clone()),
            Ok(_) => Err(DecompileError::PoolKindMismatch),
            Err(e) => Err(e),
        }
    }
}

} // verus!
