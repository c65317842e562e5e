//! The validated class model the decompiler reads: the constant pool and
//! the interface, field, method and attribute tables. Binary container
//! parsing is the disassembling collaborator's task; the decompiler only
//! reads this model by index.

use vstd::prelude::*;

use crate::constant_pool::{CPEntryV, CPIndexType, ConstantPool};

verus! {

/// The implemented-interface table: constant-pool indexes of `Class`
/// entries.
pub struct InterfacePool {
    pub interface_count: u16,
    pub interfaces: Vec<u16>,
}

/// The field table.
pub struct FieldPool {
    pub field_count: u16,
    pub fields: Vec<FieldInfo>,
}

/// One declared field: access flags, name and descriptor indexes, and its
/// attributes.
pub struct FieldInfo {
    pub access_flags: u16,
    pub name_index: u16,
    pub descriptor_index: u16,
    pub attributes_count: u16,
    pub attributes: Vec<AttributeInfo>,
}

/// The method table.
pub struct MethodPool {
    pub method_count: u16,
    pub methods: Vec<MethodInfo>,
}

/// One declared method: access flags, name and descriptor indexes, and its
/// attributes (among them the Code attribute).
pub struct MethodInfo {
    pub access_flags: u16,
    pub name_index: u16,
    pub descriptor_index: u16,
    pub attributes_count: u16,
    pub attributes: Vec<AttributeInfo>,
}

/// The class-level attribute table.
pub struct AttributePool {
    pub attribute_count: u16,
    pub attributes: Vec<AttributeInfo>,
}

/// One attribute: its resolved name entry, declared length, and raw bytes.
pub struct AttributeInfo {
    pub attribute_name_index: AttributeNameIndex,
    pub attribute_length: u32,
    pub info: Vec<u8>,
}

/// An attribute's name: the constant-pool entry and the index it was read
/// from.
pub struct AttributeNameIndex {
    pub value: CPIndexType,
    pub index: u16,
}

/// The model of an attribute: its resolved name entry, the index it was
/// read from, the declared length, and the raw bytes.
pub ghost struct AttributeInfoV {
    pub name_value: CPEntryV,
    pub name_index: u16,
    pub length: u32,
    pub info: Seq<u8>,
}

impl View for AttributeInfo {
    type V = AttributeInfoV;

    open spec fn view(&self) -> AttributeInfoV {
        AttributeInfoV {
            name_value: self.attribute_name_index.value@,
            name_index: self.attribute_name_index.index,
            length: self.attribute_length,
            info: self.info@,
        }
    }
}

impl DeepView for AttributeInfo {
    type V = AttributeInfoV;

    open spec fn deep_view(&self) -> AttributeInfoV {
        self.view()
    }
}

/// The model of a declared field or method: flags, name and descriptor
/// indexes, and attributes.
pub ghost struct MemberInfoV {
    pub access_flags: u16,
    pub name_index: u16,
    pub descriptor_index: u16,
    pub attributes: Seq<AttributeInfoV>,
}

impl View for FieldInfo {
    type V = MemberInfoV;

    open spec fn view(&self) -> MemberInfoV {
        MemberInfoV {
            access_flags: self.access_flags,
            name_index: self.name_index,
            descriptor_index: self.descriptor_index,
            attributes: self.attributes.deep_view(),
        }
    }
}

impl DeepView for FieldInfo {
    type V = MemberInfoV;

    open spec fn deep_view(&self) -> MemberInfoV {
        self.view()
    }
}

impl View for MethodInfo {
    type V = MemberInfoV;

    open spec fn view(&self) -> MemberInfoV {
        MemberInfoV {
            access_flags: self.access_flags,
            name_index: self.name_index,
            descriptor_index: self.descriptor_index,
            attributes: self.attributes.deep_view(),
        }
    }
}

impl DeepView for MethodInfo {
    type V = MemberInfoV;

    open spec fn deep_view(&self) -> MemberInfoV {
        self.view()
    }
}

/// A parsed class file: header words, the constant pool, and the class's
/// tables.
pub struct ClassFile {
    pub magic: u32,
    pub minor: u16,
    pub major: u16,
    pub constant_pool: ConstantPool,
    pub access_flags: u16,
    pub this_class: u16,
    pub super_class: u16,
    pub interfaces: InterfacePool,
    pub fields: FieldPool,
    pub methods: MethodPool,
    pub attributes: AttributePool,
}

/// The well-formedness the decompiler relies on: each table's declared
/// count does not exceed the entries actually present.
pub open spec fn spec_class_file_wf(cf: ClassFile) -> bool {
    &&& cf.interfaces.interface_count as int <= cf.interfaces.interfaces@.len()
    &&& cf.fields.field_count as int <= cf.fields.fields@.len()
    &&& cf.methods.method_count as int <= cf.methods.methods@.len()
}

} // verus!
