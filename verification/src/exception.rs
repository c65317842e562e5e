//! One exception-table row, decoded from its eight big-endian bytes.

use vstd::prelude::*;

verus! {

/// A row of a Code attribute's exception table.
pub struct ExceptionTableIndex {
    pub start_pc: u16,
    pub end_pc: u16,
    pub handler_pc: u16,
    pub catch_type: u16,
}

/// The big-endian 16-bit value of two bytes.
pub open spec fn spec_be16(hi: u8, lo: u8) -> u16 {
    (hi * 256 + lo) as u16
}

/// Decodes an exception-table row from its eight bytes: four big-endian
/// 16-bit fields, in file order.
pub fn read_exception_table_index(index: &[u8; 8]) -> (r: ExceptionTableIndex)
    ensures
        r.start_pc == spec_be16(index@[0], index@[1]),
        r.end_pc == spec_be16(index@[2], index@[3]),
        r.handler_pc == spec_be16(index@[4], index@[5]),
        r.catch_type == spec_be16(index@[6], index@[7]),
{
    let start_pc = (index[0] as u16) * 256 + (index[1] as u16);
    let end_pc = (index[2] as u16) * 256 + (index[3] as u16);
    let handler_pc = (index[4] as u16) * 256 + (index[5] as u16);
    let catch_type = (index[6] as u16) * 256 + (index[7] as u16);
    ExceptionTableIndex { start_pc, end_pc, handler_pc, catch_type }
}

} // verus!
