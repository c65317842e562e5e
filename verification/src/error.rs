//! The fatal error classes of a decompilation unit.
//!
//! Every failure aborts the current unit with no partial output: either a
//! structural violation (a constant-pool kind mismatch, a malformed
//! descriptor, a pop from an empty pending operand stack, unwrapping a
//! non-array type) or a coverage gap (an opcode with no authored rule).

use vstd::prelude::*;

verus! {

/// Why a decompilation unit was aborted.
#[derive(Clone, Copy, PartialEq, Eq, Structural, Debug)]
pub enum DecompileError {
    /// A constant-pool index was zero or past the end of the pool.
    InvalidPoolIndex,
    /// A constant-pool entry did not have the kind the caller expected.
    PoolKindMismatch,
    /// A type or method descriptor could not be decoded.
    InvalidDescriptor,
    /// A value was needed but the pending operand stack was empty.
    StackUnderflow,
    /// An array element type was asked of a non-array type.
    NotAnArrayType,
    /// The instruction has no authored decompilation rule.
    UnsupportedOpcode,
    /// The class-file bytes ended before a required item.
    TruncatedInput,
    /// A constant-pool text entry was not valid UTF-8.
    InvalidUtf8,
}

impl DecompileError {
    /// A short name for the error, for messages assembled outside the library.
    pub fn describe(&self) -> (r: &'static str)
        ensures
            r@ == spec_describe(*self),
    {
        match self {
            DecompileError::InvalidPoolIndex => "invalid constant pool index",
            DecompileError::PoolKindMismatch => "unexpected kind of constant pool entry",
            DecompileError::InvalidDescriptor => "invalid descriptor",
            DecompileError::StackUnderflow => "no instruction left on the pending operand stack",
            DecompileError::NotAnArrayType => "not an array type",
            DecompileError::UnsupportedOpcode => "unimplemented opcode",
            DecompileError::TruncatedInput => "unexpected end of class file",
            DecompileError::InvalidUtf8 => "invalid UTF-8 text",
        }
    }
}

/// The text `describe` returns for each error.
pub open spec fn spec_describe(e: DecompileError) -> Seq<char> {
    match e {
        DecompileError::InvalidPoolIndex => "invalid constant pool index"@,
        DecompileError::PoolKindMismatch => "unexpected kind of constant pool entry"@,
        DecompileError::InvalidDescriptor => "invalid descriptor"@,
        DecompileError::StackUnderflow => "no instruction left on the pending operand stack"@,
        DecompileError::NotAnArrayType => "not an array type"@,
        DecompileError::UnsupportedOpcode => "unimplemented opcode"@,
        DecompileError::TruncatedInput => "unexpected end of class file"@,
        DecompileError::InvalidUtf8 => "invalid UTF-8 text"@,
    }
}

} // verus!
