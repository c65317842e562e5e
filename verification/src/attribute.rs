//! A decoded attribute of a method's code: name index, length, raw bytes.

use vstd::prelude::*;

verus! {

/// One attribute read from a Code attribute's trailing attribute list.
pub struct Attribute {
    pub name_index: u16,
    pub length: u32,
    pub bytes: Vec<u8>,
}

impl Attribute {
    /// An attribute with the given name index, declared length and bytes.
    pub fn new(name_index: u16, length: u32, bytes: Vec<u8>) -> (r: Attribute)
        ensures
            r.name_index == name_index,
            r.length == length,
            r.bytes@ == bytes@,
    {
        Attribute { name_index, length, bytes }
    }

    /// The constant-pool index of the attribute's name.
    pub fn get_name_index(&self) -> (r: u16)
        ensures
            r == self.name_index,
    {
        self.name_index
    }
}

} // verus!
