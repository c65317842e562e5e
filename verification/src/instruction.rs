//! The closed instruction set: one case per authored opcode, carrying its
//! immediates. Instructions are immutable, produced by `parse`, and consumed
//! once by the code driver.

use vstd::prelude::*;

use crate::error::DecompileError;

verus! {

/// One decoded bytecode instruction. A missing case here is a build error,
/// never a silent fallthrough: an opcode byte outside this set fails `parse`.
#[derive(Clone, Copy, PartialEq, Eq, Structural, Debug)]
pub enum Instruction {
    AALoad,
    AAStore,
    AConstNull,
    ALoad(u8),
    ALoad0,
    ALoad1,
    ALoad2,
    ALoad3,
    ANewArray(u16),
    AReturn,
    ArrayLength,
    AStore(u8),
    AStore0,
    AStore1,
    AStore2,
    AStore3,
    AThrow,
    BALoad,
    BAStore,
    BiPush(i8),
    Breakpoint,
    CALoad,
    CAStore,
    D2F,
    D2I,
    D2L,
    DAdd,
    DALoad,
    DAStore,
    DCmpG,
    DCmpL,
    DConst0,
    DConst1,
    DDiv,
    DLoad(u8),
    DLoad0,
    DLoad1,
    DLoad2,
    DLoad3,
    DMul,
    DNeg,
    DRem,
    DReturn,
    DStore(u8),
    DStore0,
    DStore1,
    DStore2,
    DStore3,
    DSub,
    Dup,
    DupX1,
    DupX2,
    Dup2,
    Dup2X1,
    Dup2X2,
    F2D,
    F2I,
    F2L,
    FAdd,
    FALoad,
    FAStore,
    FCmpG,
    FCmpL,
    FConst0,
    FConst1,
    FConst2,
    FDiv,
    FLoad(u8),
    FLoad0,
    FLoad1,
    FLoad2,
    FLoad3,
    FMul,
    FNeg,
    FRem,
    FReturn,
    FStore(u8),
    FStore0,
    FStore1,
    FStore2,
    FStore3,
    FSub,
    GetField(u16),
    GetStatic(u16),
    I2B,
    I2C,
    I2D,
    I2F,
    I2L,
    I2S,
    IAdd,
    IALoad,
    IAnd,
    IAStore,
    IConstM1,
    IConst0,
    IConst1,
    IConst2,
    IConst3,
    IConst4,
    IConst5,
    IDiv,
    IInc(u8, i8),
    ILoad(u8),
    ILoad0,
    ILoad1,
    ILoad2,
    ILoad3,
    ImpDep1,
    ImpDep2,
    IMul,
    INeg,
    InstanceOf(u16),
    InvokeDynamic(u16, u8, u8),
    InvokeInterface(u16, u8, u8),
    IOr,
    IRem,
    IReturn,
    IShl,
    IShr,
    IStore(u8),
    IStore0,
    IStore1,
    IStore2,
    IStore3,
    ISub,
    IUShr,
    IXor,
    L2D,
    L2F,
    L2I,
    LAdd,
    LALoad,
    LAnd,
    LAStore,
    LCmp,
    LConst0,
    LConst1,
    Ldc(u8),
    LdcW(u16),
    Ldc2W(u16),
    LDiv,
    LLoad(u8),
    LLoad0,
    LLoad1,
    LLoad2,
    LLoad3,
    LMul,
    LNeg,
    LOr,
    LRem,
    LReturn,
    LShl,
    LShr,
    LStore(u8),
    LStore0,
    LStore1,
    LStore2,
    LStore3,
    LSub,
    LUShr,
    LXor,
    MonitorEnter,
    MonitorExit,
    MultiANewArray(u16, u8),
    New(u16),
    NewArray(u8),
    Nop,
    Pop,
    Pop2,
    PutField(u16),
    PutStatic(u16),
    Return,
    SALoad,
    SAStore,
    SiPush(i16),
    Swap,
}

/// True of the instructions that store a value into an array element.
pub open spec fn spec_is_array_store(i: Instruction) -> bool {
    match i {
        Instruction::AAStore
        | Instruction::BAStore
        | Instruction::CAStore
        | Instruction::DAStore
        | Instruction::FAStore
        | Instruction::IAStore
        | Instruction::LAStore
        | Instruction::SAStore => true,
        _ => false,
    }
}

/// The local slot a local-store instruction writes, if it is one.
pub open spec fn spec_store_slot(i: Instruction) -> Option<u16> {
    match i {
        Instruction::AStore(n)
        | Instruction::DStore(n)
        | Instruction::FStore(n)
        | Instruction::IStore(n)
        | Instruction::LStore(n) => Some(n as u16),
        Instruction::AStore0
        | Instruction::DStore0
        | Instruction::FStore0
        | Instruction::IStore0
        | Instruction::LStore0 => Some(0u16),
        Instruction::AStore1
        | Instruction::DStore1
        | Instruction::FStore1
        | Instruction::IStore1
        | Instruction::LStore1 => Some(1u16),
        Instruction::AStore2
        | Instruction::DStore2
        | Instruction::FStore2
        | Instruction::IStore2
        | Instruction::LStore2 => Some(2u16),
        Instruction::AStore3
        | Instruction::DStore3
        | Instruction::FStore3
        | Instruction::IStore3
        | Instruction::LStore3 => Some(3u16),
        _ => None,
    }
}

/// True of the instructions that emit a statement (or a diagnostic comment)
/// and therefore trigger operand reconstruction; every other instruction is
/// value-producing and is deferred onto the pending operand stack.
pub open spec fn spec_is_statement(i: Instruction) -> bool {
    ||| spec_is_array_store(i)
    ||| spec_store_slot(i) is Some
    ||| match i {
        Instruction::PutField(_)
        | Instruction::PutStatic(_)
        | Instruction::Return
        | Instruction::AReturn
        | Instruction::DReturn
        | Instruction::FReturn
        | Instruction::IReturn
        | Instruction::LReturn
        | Instruction::AThrow
        | Instruction::Breakpoint
        | Instruction::Nop
        | Instruction::Pop
        | Instruction::Pop2 => true,
        _ => false,
    }
}

/// True of the instructions the driver defers onto the pending operand
/// stack.
pub open spec fn spec_is_value_producer(i: Instruction) -> bool {
    !spec_is_statement(i)
}

/// The decoded instruction at `b[p]` and the position after it, for
/// opcode bytes in this range.
pub open spec fn spec_instr_low(b: Seq<u8>, p: int) -> Result<(Instruction, int), DecompileError> {
    if b[p] == 0u8 {
        Ok((Instruction::Nop, p + 1))
    } else if b[p] == 1u8 {
        Ok((Instruction::AConstNull, p + 1))
    } else if b[p] == 2u8 {
        Ok((Instruction::IConstM1, p + 1))
    } else if b[p] == 3u8 {
        Ok((Instruction::IConst0, p + 1))
    } else if b[p] == 4u8 {
        Ok((Instruction::IConst1, p + 1))
    } else if b[p] == 5u8 {
        Ok((Instruction::IConst2, p + 1))
    } else if b[p] == 6u8 {
        Ok((Instruction::IConst3, p + 1))
    } else if b[p] == 7u8 {
        Ok((Instruction::IConst4, p + 1))
    } else if b[p] == 8u8 {
        Ok((Instruction::IConst5, p + 1))
    } else if b[p] == 9u8 {
        Ok((Instruction::LConst0, p + 1))
    } else if b[p] == 10u8 {
        Ok((Instruction::LConst1, p + 1))
    } else if b[p] == 11u8 {
        Ok((Instruction::FConst0, p + 1))
    } else if b[p] == 12u8 {
        Ok((Instruction::FConst1, p + 1))
    } else if b[p] == 13u8 {
        Ok((Instruction::FConst2, p + 1))
    } else if b[p] == 14u8 {
        Ok((Instruction::DConst0, p + 1))
    } else if b[p] == 15u8 {
        Ok((Instruction::DConst1, p + 1))
    } else if b[p] == 16u8 {
        if p + 2 <= b.len() {
            Ok((Instruction::BiPush(b[p + 1] as i8), p + 2))
        } else {
            Err(DecompileError::TruncatedInput)
        }
    } else if b[p] == 17u8 {
        if p + 3 <= b.len() {
            Ok((Instruction::SiPush(spec_be16u(b[p + 1], b[p + 2]) as i16), p + 3))
        } else {
            Err(DecompileError::TruncatedInput)
        }
    } else if b[p] == 18u8 {
        if p + 2 <= b.len() {
            Ok((Instruction::Ldc(b[p + 1]), p + 2))
        } else {
            Err(DecompileError::TruncatedInput)
        }
    } else if b[p] == 19u8 {
        if p + 3 <= b.len() {
            Ok((Instruction::LdcW(spec_be16u(b[p + 1], b[p + 2])), p + 3))
        } else {
            Err(DecompileError::TruncatedInput)
        }
    } else if b[p] == 20u8 {
        if p + 3 <= b.len() {
            Ok((Instruction::Ldc2W(spec_be16u(b[p + 1], b[p + 2])), p + 3))
        } else {
            Err(DecompileError::TruncatedInput)
        }
    } else if b[p] == 21u8 {
        if p + 2 <= b.len() {
            Ok((Instruction::ILoad(b[p + 1]), p + 2))
        } else {
            Err(DecompileError::TruncatedInput)
        }
    } else if b[p] == 22u8 {
        if p + 2 <= b.len() {
            Ok((Instruction::LLoad(b[p + 1]), p + 2))
        } else {
            Err(DecompileError::TruncatedInput)
        }
    } else if b[p] == 23u8 {
        if p + 2 <= b.len() {
            Ok((Instruction::FLoad(b[p + 1]), p + 2))
        } else {
            Err(DecompileError::TruncatedInput)
        }
    } else if b[p] == 24u8 {
        if p + 2 <= b.len() {
            Ok((Instruction::DLoad(b[p + 1]), p + 2))
        } else {
            Err(DecompileError::TruncatedInput)
        }
    } else if b[p] == 25u8 {
        if p + 2 <= b.len() {
            Ok((Instruction::ALoad(b[p + 1]), p + 2))
        } else {
            Err(DecompileError::TruncatedInput)
        }
    } else if b[p] == 26u8 {
        Ok((Instruction::ILoad0, p + 1))
    } else if b[p] == 27u8 {
        Ok((Instruction::ILoad1, p + 1))
    } else if b[p] == 28u8 {
        Ok((Instruction::ILoad2, p + 1))
    } else if b[p] == 29u8 {
        Ok((Instruction::ILoad3, p + 1))
    } else if b[p] == 30u8 {
        Ok((Instruction::LLoad0, p + 1))
    } else if b[p] == 31u8 {
        Ok((Instruction::LLoad1, p + 1))
    } else if b[p] == 32u8 {
        Ok((Instruction::LLoad2, p + 1))
    } else if b[p] == 33u8 {
        Ok((Instruction::LLoad3, p + 1))
    } else if b[p] == 34u8 {
        Ok((Instruction::FLoad0, p + 1))
    } else if b[p] == 35u8 {
        Ok((Instruction::FLoad1, p + 1))
    } else if b[p] == 36u8 {
        Ok((Instruction::FLoad2, p + 1))
    } else if b[p] == 37u8 {
        Ok((Instruction::FLoad3, p + 1))
    } else if b[p] == 38u8 {
        Ok((Instruction::DLoad0, p + 1))
    } else if b[p] == 39u8 {
        Ok((Instruction::DLoad1, p + 1))
    } else if b[p] == 40u8 {
        Ok((Instruction::DLoad2, p + 1))
    } else if b[p] == 41u8 {
        Ok((Instruction::DLoad3, p + 1))
    } else if b[p] == 42u8 {
        Ok((Instruction::ALoad0, p + 1))
    } else if b[p] == 43u8 {
        Ok((Instruction::ALoad1, p + 1))
    } else if b[p] == 44u8 {
        Ok((Instruction::ALoad2, p + 1))
    } else if b[p] == 45u8 {
        Ok((Instruction::ALoad3, p + 1))
    } else if b[p] == 46u8 {
        Ok((Instruction::IALoad, p + 1))
    } else if b[p] == 47u8 {
        Ok((Instruction::LALoad, p + 1))
    } else if b[p] == 48u8 {
        Ok((Instruction::FALoad, p + 1))
    } else if b[p] == 49u8 {
        Ok((Instruction::DALoad, p + 1))
    } else if b[p] == 50u8 {
        Ok((Instruction::AALoad, p + 1))
    } else if b[p] == 51u8 {
        Ok((Instruction::BALoad, p + 1))
    } else if b[p] == 52u8 {
        Ok((Instruction::CALoad, p + 1))
    } else if b[p] == 53u8 {
        Ok((Instruction::SALoad, p + 1))
    } else if b[p] == 54u8 {
        if p + 2 <= b.len() {
            Ok((Instruction::IStore(b[p + 1]), p + 2))
        } else {
            Err(DecompileError::TruncatedInput)
        }
    } else if b[p] == 55u8 {
        if p + 2 <= b.len() {
            Ok((Instruction::LStore(b[p + 1]), p + 2))
        } else {
            Err(DecompileError::TruncatedInput)
        }
    } else if b[p] == 56u8 {
        if p + 2 <= b.len() {
            Ok((Instruction::FStore(b[p + 1]), p + 2))
        } else {
            Err(DecompileError::TruncatedInput)
        }
    } else if b[p] == 57u8 {
        if p + 2 <= b.len() {
            Ok((Instruction::DStore(b[p + 1]), p + 2))
        } else {
            Err(DecompileError::TruncatedInput)
        }
    } else if b[p] == 58u8 {
        if p + 2 <= b.len() {
            Ok((Instruction::AStore(b[p + 1]), p + 2))
        } else {
            Err(DecompileError::TruncatedInput)
        }
    } else if b[p] == 59u8 {
        Ok((Instruction::IStore0, p + 1))
    } else if b[p] == 60u8 {
        Ok((Instruction::IStore1, p + 1))
    } else if b[p] == 61u8 {
        Ok((Instruction::IStore2, p + 1))
    } else if b[p] == 62u8 {
        Ok((Instruction::IStore3, p + 1))
    } else if b[p] == 63u8 {
        Ok((Instruction::LStore0, p + 1))
    } else if b[p] == 64u8 {
        Ok((Instruction::LStore1, p + 1))
    } else if b[p] == 65u8 {
        Ok((Instruction::LStore2, p + 1))
    } else if b[p] == 66u8 {
        Ok((Instruction::LStore3, p + 1))
    } else if b[p] == 67u8 {
        Ok((Instruction::FStore0, p + 1))
    } else if b[p] == 68u8 {
        Ok((Instruction::FStore1, p + 1))
    } else if b[p] == 69u8 {
        Ok((Instruction::FStore2, p + 1))
    } else if b[p] == 70u8 {
        Ok((Instruction::FStore3, p + 1))
    } else if b[p] == 71u8 {
        Ok((Instruction::DStore0, p + 1))
    } else if b[p] == 72u8 {
        Ok((Instruction::DStore1, p + 1))
    } else if b[p] == 73u8 {
        Ok((Instruction::DStore2, p + 1))
    } else if b[p] == 74u8 {
        Ok((Instruction::DStore3, p + 1))
    } else if b[p] == 75u8 {
        Ok((Instruction::AStore0, p + 1))
    } else if b[p] == 76u8 {
        Ok((Instruction::AStore1, p + 1))
    } else if b[p] == 77u8 {
        Ok((Instruction::AStore2, p + 1))
    } else if b[p] == 78u8 {
        Ok((Instruction::AStore3, p + 1))
    } else if b[p] == 79u8 {
        Ok((Instruction::IAStore, p + 1))
    } else if b[p] == 80u8 {
        Ok((Instruction::LAStore, p + 1))
    } else if b[p] == 81u8 {
        Ok((Instruction::FAStore, p + 1))
    } else if b[p] == 82u8 {
        Ok((Instruction::DAStore, p + 1))
    } else if b[p] == 83u8 {
        Ok((Instruction::AAStore, p + 1))
    } else if b[p] == 84u8 {
        Ok((Instruction::BAStore, p + 1))
    } else if b[p] == 85u8 {
        Ok((Instruction::CAStore, p + 1))
    } else if b[p] == 86u8 {
        Ok((Instruction::SAStore, p + 1))
    } else if b[p] == 87u8 {
        Ok((Instruction::Pop, p + 1))
    } else if b[p] == 88u8 {
        Ok((Instruction::Pop2, p + 1))
    } else if b[p] == 89u8 {
        Ok((Instruction::Dup, p + 1))
    } else if b[p] == 90u8 {
        Ok((Instruction::DupX1, p + 1))
    } else if b[p] == 91u8 {
        Ok((Instruction::DupX2, p + 1))
    } else if b[p] == 92u8 {
        Ok((Instruction::Dup2, p + 1))
    } else if b[p] == 93u8 {
        Ok((Instruction::Dup2X1, p + 1))
    } else if b[p] == 94u8 {
        Ok((Instruction::Dup2X2, p + 1))
    } else if b[p] == 95u8 {
        Ok((Instruction::Swap, p + 1))
    } else {
        Err(DecompileError::UnsupportedOpcode)
    }
}

/// The decoded instruction at `b[p]` and the position after it, for
/// opcode bytes in this range.
pub open spec fn spec_instr_mid(b: Seq<u8>, p: int) -> Result<(Instruction, int), DecompileError> {
    if b[p] == 96u8 {
        Ok((Instruction::IAdd, p + 1))
    } else if b[p] == 97u8 {
        Ok((Instruction::LAdd, p + 1))
    } else if b[p] == 98u8 {
        Ok((Instruction::FAdd, p + 1))
    } else if b[p] == 99u8 {
        Ok((Instruction::DAdd, p + 1))
    } else if b[p] == 100u8 {
        Ok((Instruction::ISub, p + 1))
    } else if b[p] == 101u8 {
        Ok((Instruction::LSub, p + 1))
    } else if b[p] == 102u8 {
        Ok((Instruction::FSub, p + 1))
    } else if b[p] == 103u8 {
        Ok((Instruction::DSub, p + 1))
    } else if b[p] == 104u8 {
        Ok((Instruction::IMul, p + 1))
    } else if b[p] == 105u8 {
        Ok((Instruction::LMul, p + 1))
    } else if b[p] == 106u8 {
        Ok((Instruction::FMul, p + 1))
    } else if b[p] == 107u8 {
        Ok((Instruction::DMul, p + 1))
    } else if b[p] == 108u8 {
        Ok((Instruction::IDiv, p + 1))
    } else if b[p] == 109u8 {
        Ok((Instruction::LDiv, p + 1))
    } else if b[p] == 110u8 {
        Ok((Instruction::FDiv, p + 1))
    } else if b[p] == 111u8 {
        Ok((Instruction::DDiv, p + 1))
    } else if b[p] == 112u8 {
        Ok((Instruction::IRem, p + 1))
    } else if b[p] == 113u8 {
        Ok((Instruction::LRem, p + 1))
    } else if b[p] == 114u8 {
        Ok((Instruction::FRem, p + 1))
    } else if b[p] == 115u8 {
        Ok((Instruction::DRem, p + 1))
    } else if b[p] == 116u8 {
        Ok((Instruction::INeg, p + 1))
    } else if b[p] == 117u8 {
        Ok((Instruction::LNeg, p + 1))
    } else if b[p] == 118u8 {
        Ok((Instruction::FNeg, p + 1))
    } else if b[p] == 119u8 {
        Ok((Instruction::DNeg, p + 1))
    } else if b[p] == 120u8 {
        Ok((Instruction::IShl, p + 1))
    } else if b[p] == 121u8 {
        Ok((Instruction::LShl, p + 1))
    } else if b[p] == 122u8 {
        Ok((Instruction::IShr, p + 1))
    } else if b[p] == 123u8 {
        Ok((Instruction::LShr, p + 1))
    } else if b[p] == 124u8 {
        Ok((Instruction::IUShr, p + 1))
    } else if b[p] == 125u8 {
        Ok((Instruction::LUShr, p + 1))
    } else if b[p] == 126u8 {
        Ok((Instruction::IAnd, p + 1))
    } else if b[p] == 127u8 {
        Ok((Instruction::LAnd, p + 1))
    } else if b[p] == 128u8 {
        Ok((Instruction::IOr, p + 1))
    } else if b[p] == 129u8 {
        Ok((Instruction::LOr, p + 1))
    } else if b[p] == 130u8 {
        Ok((Instruction::IXor, p + 1))
    } else if b[p] == 131u8 {
        Ok((Instruction::LXor, p + 1))
    } else if b[p] == 132u8 {
        if p + 3 <= b.len() {
            Ok((Instruction::IInc(b[p + 1], b[p + 2] as i8), p + 3))
        } else {
            Err(DecompileError::TruncatedInput)
        }
    } else if b[p] == 133u8 {
        Ok((Instruction::I2L, p + 1))
    } else if b[p] == 134u8 {
        Ok((Instruction::I2F, p + 1))
    } else if b[p] == 135u8 {
        Ok((Instruction::I2D, p + 1))
    } else if b[p] == 136u8 {
        Ok((Instruction::L2I, p + 1))
    } else if b[p] == 137u8 {
        Ok((Instruction::L2F, p + 1))
    } else if b[p] == 138u8 {
        Ok((Instruction::L2D, p + 1))
    } else if b[p] == 139u8 {
        Ok((Instruction::F2I, p + 1))
    } else if b[p] == 140u8 {
        Ok((Instruction::F2L, p + 1))
    } else if b[p] == 141u8 {
        Ok((Instruction::F2D, p + 1))
    } else if b[p] == 142u8 {
        Ok((Instruction::D2I, p + 1))
    } else if b[p] == 143u8 {
        Ok((Instruction::D2L, p + 1))
    } else if b[p] == 144u8 {
        Ok((Instruction::D2F, p + 1))
    } else if b[p] == 145u8 {
        Ok((Instruction::I2B, p + 1))
    } else if b[p] == 146u8 {
        Ok((Instruction::I2C, p + 1))
    } else if b[p] == 147u8 {
        Ok((Instruction::I2S, p + 1))
    } else if b[p] == 148u8 {
        Ok((Instruction::LCmp, p + 1))
    } else if b[p] == 149u8 {
        Ok((Instruction::FCmpL, p + 1))
    } else if b[p] == 150u8 {
        Ok((Instruction::FCmpG, p + 1))
    } else if b[p] == 151u8 {
        Ok((Instruction::DCmpL, p + 1))
    } else if b[p] == 152u8 {
        Ok((Instruction::DCmpG, p + 1))
    } else {
        Err(DecompileError::UnsupportedOpcode)
    }
}

/// The decoded instruction at `b[p]` and the position after it, for
/// opcode bytes in this range.
pub open spec fn spec_instr_high(b: Seq<u8>, p: int) -> Result<(Instruction, int), DecompileError> {
    if b[p] == 172u8 {
        Ok((Instruction::IReturn, p + 1))
    } else if b[p] == 173u8 {
        Ok((Instruction::LReturn, p + 1))
    } else if b[p] == 174u8 {
        Ok((Instruction::FReturn, p + 1))
    } else if b[p] == 175u8 {
        Ok((Instruction::DReturn, p + 1))
    } else if b[p] == 176u8 {
        Ok((Instruction::AReturn, p + 1))
    } else if b[p] == 177u8 {
        Ok((Instruction::Return, p + 1))
    } else if b[p] == 178u8 {
        if p + 3 <= b.len() {
            Ok((Instruction::GetStatic(spec_be16u(b[p + 1], b[p + 2])), p + 3))
        } else {
            Err(DecompileError::TruncatedInput)
        }
    } else if b[p] == 179u8 {
        if p + 3 <= b.len() {
            Ok((Instruction::PutStatic(spec_be16u(b[p + 1], b[p + 2])), p + 3))
        } else {
            Err(DecompileError::TruncatedInput)
        }
    } else if b[p] == 180u8 {
        if p + 3 <= b.len() {
            Ok((Instruction::GetField(spec_be16u(b[p + 1], b[p + 2])), p + 3))
        } else {
            Err(DecompileError::TruncatedInput)
        }
    } else if b[p] == 181u8 {
        if p + 3 <= b.len() {
            Ok((Instruction::PutField(spec_be16u(b[p + 1], b[p + 2])), p + 3))
        } else {
            Err(DecompileError::TruncatedInput)
        }
    } else if b[p] == 185u8 {
        if p + 5 <= b.len() {
            Ok((Instruction::InvokeInterface(spec_be16u(b[p + 1], b[p + 2]), b[p + 3], b[p + 4]), p + 5))
        } else {
            Err(DecompileError::TruncatedInput)
        }
    } else if b[p] == 186u8 {
        if p + 5 <= b.len() {
            Ok((Instruction::InvokeDynamic(spec_be16u(b[p + 1], b[p + 2]), b[p + 3], b[p + 4]), p + 5))
        } else {
            Err(DecompileError::TruncatedInput)
        }
    } else if b[p] == 187u8 {
        if p + 3 <= b.len() {
            Ok((Instruction::New(spec_be16u(b[p + 1], b[p + 2])), p + 3))
        } else {
            Err(DecompileError::TruncatedInput)
        }
    } else if b[p] == 188u8 {
        if p + 2 <= b.len() {
            Ok((Instruction::NewArray(b[p + 1]), p + 2))
        } else {
            Err(DecompileError::TruncatedInput)
        }
    } else if b[p] == 189u8 {
        if p + 3 <= b.len() {
            Ok((Instruction::ANewArray(spec_be16u(b[p + 1], b[p + 2])), p + 3))
        } else {
            Err(DecompileError::TruncatedInput)
        }
    } else if b[p] == 190u8 {
        Ok((Instruction::ArrayLength, p + 1))
    } else if b[p] == 191u8 {
        Ok((Instruction::AThrow, p + 1))
    } else if b[p] == 193u8 {
        if p + 3 <= b.len() {
            Ok((Instruction::InstanceOf(spec_be16u(b[p + 1], b[p + 2])), p + 3))
        } else {
            Err(DecompileError::TruncatedInput)
        }
    } else if b[p] == 194u8 {
        Ok((Instruction::MonitorEnter, p + 1))
    } else if b[p] == 195u8 {
        Ok((Instruction::MonitorExit, p + 1))
    } else if b[p] == 197u8 {
        if p + 4 <= b.len() {
            Ok((Instruction::MultiANewArray(spec_be16u(b[p + 1], b[p + 2]), b[p + 3]), p + 4))
        } else {
            Err(DecompileError::TruncatedInput)
        }
    } else if b[p] == 202u8 {
        Ok((Instruction::Breakpoint, p + 1))
    } else if b[p] == 254u8 {
        Ok((Instruction::ImpDep1, p + 1))
    } else if b[p] == 255u8 {
        Ok((Instruction::ImpDep2, p + 1))
    } else {
        Err(DecompileError::UnsupportedOpcode)
    }
}

/// The big-endian 16-bit value of two bytes.
pub open spec fn spec_be16u(hi: u8, lo: u8) -> u16 {
    (hi * 256 + lo) as u16
}

/// The decoded instruction at `b[p]` and the position after it. An opcode
/// byte with no authored case fails with `UnsupportedOpcode`; a truncated
/// immediate fails with `TruncatedInput`.
pub open spec fn spec_instr(b: Seq<u8>, p: int) -> Result<(Instruction, int), DecompileError> {
    if b[p] < 0x60u8 {
        spec_instr_low(b, p)
    } else if b[p] < 0xacu8 {
        spec_instr_mid(b, p)
    } else {
        spec_instr_high(b, p)
    }
}

/// The decoded instruction sequence of `b[p..]`.
pub open spec fn spec_parse(b: Seq<u8>, p: int) -> Result<Seq<Instruction>, DecompileError>
    decreases b.len() - p,
{
    if p < 0 || p >= b.len() {
        Ok(Seq::<Instruction>::empty())
    } else {
        match spec_instr(b, p) {
            Ok((i, q)) => if p < q <= b.len() {
                match spec_parse(b, q) {
                    Ok(rest) => Ok(seq![i] + rest),
                    Err(e) => Err(e),
                }
            } else {
                Err(DecompileError::TruncatedInput)
            },
            Err(e) => Err(e),
        }
    }
}

/// The big-endian 16-bit value of two bytes.
fn be16(hi: u8, lo: u8) -> (r: u16)
    ensures
        r == spec_be16u(hi, lo),
{
    (hi as u16) * 256 + (lo as u16)
}

/// Decodes the instruction at `code[p]`.
fn instr_at(code: &Vec<u8>, p: usize) -> (r: Result<(Instruction, usize), DecompileError>)
    requires
        p < code@.len(),
    ensures
        match r {
            Ok((i, q)) => spec_instr(code@, p as int) == Ok::<_, DecompileError>((i, q as int))
                && p < q <= code@.len(),
            Err(e) => spec_instr(code@, p as int) == Err::<(Instruction, int), _>(e),
        },
{
    let b = code[p];
    if b < 0x60u8 {
        instr_at_low(code, p)
    } else if b < 0xacu8 {
        instr_at_mid(code, p)
    } else {
        instr_at_high(code, p)
    }
}

/// Decodes a whole code array into its instruction sequence: every byte
/// must begin an authored opcode with its immediates complete, or the unit
/// fails.
pub fn parse(code: &Vec<u8>) -> (r: Result<Vec<Instruction>, DecompileError>)
    ensures
        match r {
            Ok(instrs) => spec_parse(code@, 0) == Ok::<_, DecompileError>(instrs@),
            Err(e) => spec_parse(code@, 0) == Err::<Seq<Instruction>, _>(e),
        },
{
    let mut out: Vec<Instruction> = Vec::new();
    let mut p: usize = 0;
    while p < code.len()
        invariant
            p <= code@.len(),
            match spec_parse(code@, p as int) {
                Ok(rest) => spec_parse(code@, 0) == Ok::<_, DecompileError>(out@ + rest),
                Err(e) => spec_parse(code@, 0) == Err::<Seq<Instruction>, _>(e),
            },
        decreases code@.len() - p,
    {
        let ghost out0 = out@;
        let (i, q) = match instr_at(code, p) {
            Ok(v) => v,
            Err(e) => {
                return Err(e);
            },
        };
        out.push(i);
        proof {
            let r2 = spec_parse(code@, q as int);
            match r2 {
                Ok(rest2) => {
                    assert(out@ =~= out0 + seq![i]);
                    assert((out0 + seq![i]) + rest2 =~= out0 + (seq![i] + rest2));
                },
                Err(_) => {},
            }
        }
        p = q;
    }
    proof {
        assert(out@ + Seq::<Instruction>::empty() =~= out@);
    }
    Ok(out)
}


#[verifier::rlimit(100)]
fn instr_at_low(code: &Vec<u8>, p: usize) -> (r: Result<(Instruction, usize), DecompileError>)
    requires
        p < code@.len(),
    ensures
        match r {
            Ok((i, q)) => spec_instr_low(code@, p as int) == Ok::<_, DecompileError>((i, q as int))
                && p < q <= code@.len(),
            Err(e) => spec_instr_low(code@, p as int) == Err::<(Instruction, int), _>(e),
        },
{
    let n = code.len();
    match code[p] {
        0 => Ok((Instruction::Nop, p + 1)),
        1 => Ok((Instruction::AConstNull, p + 1)),
        2 => Ok((Instruction::IConstM1, p + 1)),
        3 => Ok((Instruction::IConst0, p + 1)),
        4 => Ok((Instruction::IConst1, p + 1)),
        5 => Ok((Instruction::IConst2, p + 1)),
        6 => Ok((Instruction::IConst3, p + 1)),
        7 => Ok((Instruction::IConst4, p + 1)),
        8 => Ok((Instruction::IConst5, p + 1)),
        9 => Ok((Instruction::LConst0, p + 1)),
        10 => Ok((Instruction::LConst1, p + 1)),
        11 => Ok((Instruction::FConst0, p + 1)),
        12 => Ok((Instruction::FConst1, p + 1)),
        13 => Ok((Instruction::FConst2, p + 1)),
        14 => Ok((Instruction::DConst0, p + 1)),
        15 => Ok((Instruction::DConst1, p + 1)),
        16 => {
            if n - p >= 2 {
                Ok((Instruction::BiPush(code[p + 1] as i8), p + 2))
            } else {
                Err(DecompileError::TruncatedInput)
            }
        },
        17 => {
            if n - p >= 3 {
                Ok((Instruction::SiPush(be16(code[p + 1], code[p + 2]) as i16), p + 3))
            } else {
                Err(DecompileError::TruncatedInput)
            }
        },
        18 => {
            if n - p >= 2 {
                Ok((Instruction::Ldc(code[p + 1]), p + 2))
            } else {
                Err(DecompileError::TruncatedInput)
            }
        },
        19 => {
            if n - p >= 3 {
                Ok((Instruction::LdcW(be16(code[p + 1], code[p + 2])), p + 3))
            } else {
                Err(DecompileError::TruncatedInput)
            }
        },
        20 => {
            if n - p >= 3 {
                Ok((Instruction::Ldc2W(be16(code[p + 1], code[p + 2])), p + 3))
            } else {
                Err(DecompileError::TruncatedInput)
            }
        },
        21 => {
            if n - p >= 2 {
                Ok((Instruction::ILoad(code[p + 1]), p + 2))
            } else {
                Err(DecompileError::TruncatedInput)
            }
        },
        22 => {
            if n - p >= 2 {
                Ok((Instruction::LLoad(code[p + 1]), p + 2))
            } else {
                Err(DecompileError::TruncatedInput)
            }
        },
        23 => {
            if n - p >= 2 {
                Ok((Instruction::FLoad(code[p + 1]), p + 2))
            } else {
                Err(DecompileError::TruncatedInput)
            }
        },
        24 => {
            if n - p >= 2 {
                Ok((Instruction::DLoad(code[p + 1]), p + 2))
            } else {
                Err(DecompileError::TruncatedInput)
            }
        },
        25 => {
            if n - p >= 2 {
                Ok((Instruction::ALoad(code[p + 1]), p + 2))
            } else {
                Err(DecompileError::TruncatedInput)
            }
        },
        26 => Ok((Instruction::ILoad0, p + 1)),
        27 => Ok((Instruction::ILoad1, p + 1)),
        28 => Ok((Instruction::ILoad2, p + 1)),
        29 => Ok((Instruction::ILoad3, p + 1)),
        30 => Ok((Instruction::LLoad0, p + 1)),
        31 => Ok((Instruction::LLoad1, p + 1)),
        32 => Ok((Instruction::LLoad2, p + 1)),
        33 => Ok((Instruction::LLoad3, p + 1)),
        34 => Ok((Instruction::FLoad0, p + 1)),
        35 => Ok((Instruction::FLoad1, p + 1)),
        36 => Ok((Instruction::FLoad2, p + 1)),
        37 => Ok((Instruction::FLoad3, p + 1)),
        38 => Ok((Instruction::DLoad0, p + 1)),
        39 => Ok((Instruction::DLoad1, p + 1)),
        40 => Ok((Instruction::DLoad2, p + 1)),
        41 => Ok((Instruction::DLoad3, p + 1)),
        42 => Ok((Instruction::ALoad0, p + 1)),
        43 => Ok((Instruction::ALoad1, p + 1)),
        44 => Ok((Instruction::ALoad2, p + 1)),
        45 => Ok((Instruction::ALoad3, p + 1)),
        46 => Ok((Instruction::IALoad, p + 1)),
        47 => Ok((Instruction::LALoad, p + 1)),
        48 => Ok((Instruction::FALoad, p + 1)),
        49 => Ok((Instruction::DALoad, p + 1)),
        50 => Ok((Instruction::AALoad, p + 1)),
        51 => Ok((Instruction::BALoad, p + 1)),
        52 => Ok((Instruction::CALoad, p + 1)),
        53 => Ok((Instruction::SALoad, p + 1)),
        54 => {
            if n - p >= 2 {
                Ok((Instruction::IStore(code[p + 1]), p + 2))
            } else {
                Err(DecompileError::TruncatedInput)
            }
        },
        55 => {
            if n - p >= 2 {
                Ok((Instruction::LStore(code[p + 1]), p + 2))
            } else {
                Err(DecompileError::TruncatedInput)
            }
        },
        56 => {
            if n - p >= 2 {
                Ok((Instruction::FStore(code[p + 1]), p + 2))
            } else {
                Err(DecompileError::TruncatedInput)
            }
        },
        57 => {
            if n - p >= 2 {
                Ok((Instruction::DStore(code[p + 1]), p + 2))
            } else {
                Err(DecompileError::TruncatedInput)
            }
        },
        58 => {
            if n - p >= 2 {
                Ok((Instruction::AStore(code[p + 1]), p + 2))
            } else {
                Err(DecompileError::TruncatedInput)
            }
        },
        59 => Ok((Instruction::IStore0, p + 1)),
        60 => Ok((Instruction::IStore1, p + 1)),
        61 => Ok((Instruction::IStore2, p + 1)),
        62 => Ok((Instruction::IStore3, p + 1)),
        63 => Ok((Instruction::LStore0, p + 1)),
        64 => Ok((Instruction::LStore1, p + 1)),
        65 => Ok((Instruction::LStore2, p + 1)),
        66 => Ok((Instruction::LStore3, p + 1)),
        67 => Ok((Instruction::FStore0, p + 1)),
        68 => Ok((Instruction::FStore1, p + 1)),
        69 => Ok((Instruction::FStore2, p + 1)),
        70 => Ok((Instruction::FStore3, p + 1)),
        71 => Ok((Instruction::DStore0, p + 1)),
        72 => Ok((Instruction::DStore1, p + 1)),
        73 => Ok((Instruction::DStore2, p + 1)),
        74 => Ok((Instruction::DStore3, p + 1)),
        75 => Ok((Instruction::AStore0, p + 1)),
        76 => Ok((Instruction::AStore1, p + 1)),
        77 => Ok((Instruction::AStore2, p + 1)),
        78 => Ok((Instruction::AStore3, p + 1)),
        79 => Ok((Instruction::IAStore, p + 1)),
        80 => Ok((Instruction::LAStore, p + 1)),
        81 => Ok((Instruction::FAStore, p + 1)),
        82 => Ok((Instruction::DAStore, p + 1)),
        83 => Ok((Instruction::AAStore, p + 1)),
        84 => Ok((Instruction::BAStore, p + 1)),
        85 => Ok((Instruction::CAStore, p + 1)),
        86 => Ok((Instruction::SAStore, p + 1)),
        87 => Ok((Instruction::Pop, p + 1)),
        88 => Ok((Instruction::Pop2, p + 1)),
        89 => Ok((Instruction::Dup, p + 1)),
        90 => Ok((Instruction::DupX1, p + 1)),
        91 => Ok((Instruction::DupX2, p + 1)),
        92 => Ok((Instruction::Dup2, p + 1)),
        93 => Ok((Instruction::Dup2X1, p + 1)),
        94 => Ok((Instruction::Dup2X2, p + 1)),
        95 => Ok((Instruction::Swap, p + 1)),
        _ => Err(DecompileError::UnsupportedOpcode),
    }
}

#[verifier::rlimit(100)]
fn instr_at_mid(code: &Vec<u8>, p: usize) -> (r: Result<(Instruction, usize), DecompileError>)
    requires
        p < code@.len(),
    ensures
        match r {
            Ok((i, q)) => spec_instr_mid(code@, p as int) == Ok::<_, DecompileError>((i, q as int))
                && p < q <= code@.len(),
            Err(e) => spec_instr_mid(code@, p as int) == Err::<(Instruction, int), _>(e),
        },
{
    let n = code.len();
    match code[p] {
        96 => Ok((Instruction::IAdd, p + 1)),
        97 => Ok((Instruction::LAdd, p + 1)),
        98 => Ok((Instruction::FAdd, p + 1)),
        99 => Ok((Instruction::DAdd, p + 1)),
        100 => Ok((Instruction::ISub, p + 1)),
        101 => Ok((Instruction::LSub, p + 1)),
        102 => Ok((Instruction::FSub, p + 1)),
        103 => Ok((Instruction::DSub, p + 1)),
        104 => Ok((Instruction::IMul, p + 1)),
        105 => Ok((Instruction::LMul, p + 1)),
        106 => Ok((Instruction::FMul, p + 1)),
        107 => Ok((Instruction::DMul, p + 1)),
        108 => Ok((Instruction::IDiv, p + 1)),
        109 => Ok((Instruction::LDiv, p + 1)),
        110 => Ok((Instruction::FDiv, p + 1)),
        111 => Ok((Instruction::DDiv, p + 1)),
        112 => Ok((Instruction::IRem, p + 1)),
        113 => Ok((Instruction::LRem, p + 1)),
        114 => Ok((Instruction::FRem, p + 1)),
        115 => Ok((Instruction::DRem, p + 1)),
        116 => Ok((Instruction::INeg, p + 1)),
        117 => Ok((Instruction::LNeg, p + 1)),
        118 => Ok((Instruction::FNeg, p + 1)),
        119 => Ok((Instruction::DNeg, p + 1)),
        120 => Ok((Instruction::IShl, p + 1)),
        121 => Ok((Instruction::LShl, p + 1)),
        122 => Ok((Instruction::IShr, p + 1)),
        123 => Ok((Instruction::LShr, p + 1)),
        124 => Ok((Instruction::IUShr, p + 1)),
        125 => Ok((Instruction::LUShr, p + 1)),
        126 => Ok((Instruction::IAnd, p + 1)),
        127 => Ok((Instruction::LAnd, p + 1)),
        128 => Ok((Instruction::IOr, p + 1)),
        129 => Ok((Instruction::LOr, p + 1)),
        130 => Ok((Instruction::IXor, p + 1)),
        131 => Ok((Instruction::LXor, p + 1)),
        132 => {
            if n - p >= 3 {
                Ok((Instruction::IInc(code[p + 1], code[p + 2] as i8), p + 3))
            } else {
                Err(DecompileError::TruncatedInput)
            }
        },
        133 => Ok((Instruction::I2L, p + 1)),
        134 => Ok((Instruction::I2F, p + 1)),
        135 => Ok((Instruction::I2D, p + 1)),
        136 => Ok((Instruction::L2I, p + 1)),
        137 => Ok((Instruction::L2F, p + 1)),
        138 => Ok((Instruction::L2D, p + 1)),
        139 => Ok((Instruction::F2I, p + 1)),
        140 => Ok((Instruction::F2L, p + 1)),
        141 => Ok((Instruction::F2D, p + 1)),
        142 => Ok((Instruction::D2I, p + 1)),
        143 => Ok((Instruction::D2L, p + 1)),
        144 => Ok((Instruction::D2F, p + 1)),
        145 => Ok((Instruction::I2B, p + 1)),
        146 => Ok((Instruction::I2C, p + 1)),
        147 => Ok((Instruction::I2S, p + 1)),
        148 => Ok((Instruction::LCmp, p + 1)),
        149 => Ok((Instruction::FCmpL, p + 1)),
        150 => Ok((Instruction::FCmpG, p + 1)),
        151 => Ok((Instruction::DCmpL, p + 1)),
        152 => Ok((Instruction::DCmpG, p + 1)),
        _ => Err(DecompileError::UnsupportedOpcode),
    }
}

#[verifier::rlimit(100)]
fn instr_at_high(code: &Vec<u8>, p: usize) -> (r: Result<(Instruction, usize), DecompileError>)
    requires
        p < code@.len(),
    ensures
        match r {
            Ok((i, q)) => spec_instr_high(code@, p as int) == Ok::<_, DecompileError>((i, q as int))
                && p < q <= code@.len(),
            Err(e) => spec_instr_high(code@, p as int) == Err::<(Instruction, int), _>(e),
        },
{
    let n = code.len();
    match code[p] {
        172 => Ok((Instruction::IReturn, p + 1)),
        173 => Ok((Instruction::LReturn, p + 1)),
        174 => Ok((Instruction::FReturn, p + 1)),
        175 => Ok((Instruction::DReturn, p + 1)),
        176 => Ok((Instruction::AReturn, p + 1)),
        177 => Ok((Instruction::Return, p + 1)),
        178 => {
            if n - p >= 3 {
                Ok((Instruction::GetStatic(be16(code[p + 1], code[p + 2])), p + 3))
            } else {
                Err(DecompileError::TruncatedInput)
            }
        },
        179 => {
            if n - p >= 3 {
                Ok((Instruction::PutStatic(be16(code[p + 1], code[p + 2])), p + 3))
            } else {
                Err(DecompileError::TruncatedInput)
            }
        },
        180 => {
            if n - p >= 3 {
                Ok((Instruction::GetField(be16(code[p + 1], code[p + 2])), p + 3))
            } else {
                Err(DecompileError::TruncatedInput)
            }
        },
        181 => {
            if n - p >= 3 {
                Ok((Instruction::PutField(be16(code[p + 1], code[p + 2])), p + 3))
            } else {
                Err(DecompileError::TruncatedInput)
            }
        },
        185 => {
            if n - p >= 5 {
                Ok((Instruction::InvokeInterface(be16(code[p + 1], code[p + 2]), code[p + 3], code[p + 4]), p + 5))
            } else {
                Err(DecompileError::TruncatedInput)
            }
        },
        186 => {
            if n - p >= 5 {
                Ok((Instruction::InvokeDynamic(be16(code[p + 1], code[p + 2]), code[p + 3], code[p + 4]), p + 5))
            } else {
                Err(DecompileError::TruncatedInput)
            }
        },
        187 => {
            if n - p >= 3 {
                Ok((Instruction::New(be16(code[p + 1], code[p + 2])), p + 3))
            } else {
                Err(DecompileError::TruncatedInput)
            }
        },
        188 => {
            if n - p >= 2 {
                Ok((Instruction::NewArray(code[p + 1]), p + 2))
            } else {
                Err(DecompileError::TruncatedInput)
            }
        },
        189 => {
            if n - p >= 3 {
                Ok((Instruction::ANewArray(be16(code[p + 1], code[p + 2])), p + 3))
            } else {
                Err(DecompileError::TruncatedInput)
            }
        },
        190 => Ok((Instruction::ArrayLength, p + 1)),
        191 => Ok((Instruction::AThrow, p + 1)),
        193 => {
            if n - p >= 3 {
                Ok((Instruction::InstanceOf(be16(code[p + 1], code[p + 2])), p + 3))
            } else {
                Err(DecompileError::TruncatedInput)
            }
        },
        194 => Ok((Instruction::MonitorEnter, p + 1)),
        195 => Ok((Instruction::MonitorExit, p + 1)),
        197 => {
            if n - p >= 4 {
                Ok((Instruction::MultiANewArray(be16(code[p + 1], code[p + 2]), code[p + 3]), p + 4))
            } else {
                Err(DecompileError::TruncatedInput)
            }
        },
        202 => Ok((Instruction::Breakpoint, p + 1)),
        254 => Ok((Instruction::ImpDep1, p + 1)),
        255 => Ok((Instruction::ImpDep2, p + 1)),
        _ => Err(DecompileError::UnsupportedOpcode),
    }
}

} // verus!
