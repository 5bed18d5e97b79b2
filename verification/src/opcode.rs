//! The opcodes of the bytecode target, as one tagged sum.
//!
//! Each opcode stands for one byte; the mapping is total on the listed
//! bytes and the argument-taking range is a contiguous band of codes.

use vstd::prelude::*;

verus! {

/// One opcode of the bytecode target.
#[derive(Clone, Copy, Debug, PartialEq, Eq, Structural)]
pub enum Opcode {
    PopTop,
    RotTwo,
    RotThree,
    DupTop,
    DupTop2,
    RotFour,
    Nop,
    UnaryPositive,
    UnaryNegative,
    UnaryNot,
    UnaryInvert,
    BinaryMatrixMultiply,
    InplaceMatrixMultiply,
    BinaryPower,
    BinaryMultiply,
    BinaryModulo,
    BinaryAdd,
    BinarySubtract,
    BinarySubscr,
    BinaryTrueDivide,
    InplaceFloorDivide,
    InplaceTrueDivide,
    GetLen,
    MatchMapping,
    MatchSequence,
    MatchKeys,
    PushExcInfo,
    CheckExcMatch,
    CheckEgMatch,
    WithExceptStart,
    GetAiter,
    GetAnext,
    BeforeAsyncWith,
    BeforeWith,
    EndAsyncFor,
    InplaceAdd,
    InplaceSubtract,
    InplaceMultiply,
    InplaceModulo,
    StoreSubscr,
    BinaryAnd,
    BinaryXor,
    BinaryOr,
    GetIter,
    GetYieldFromIter,
    PrintExpr,
    LoadBuildClass,
    LoadAssertionError,
    ReturnValue,
    StoreName,
    DeleteName,
    UnpackSequence,
    ForIter,
    UnpackEx,
    StoreAttr,
    StoreGlobal,
    LoadConst,
    LoadName,
    BuildTuple,
    BuildList,
    BuildSet,
    BuildMap,
    LoadAttr,
    CompareOp,
    ImportName,
    ImportFrom,
    JumpForward,
    JumpIfFalseOrPop,
    JumpIfTrueOrPop,
    JumpAbsolute,
    PopJumpIfFalse,
    PopJumpIfTrue,
    LoadGlobal,
    IsOp,
    ContainsOp,
    LoadFast,
    StoreFast,
    DeleteFast,
    RaiseVarargs,
    CallFunction,
    MakeFunction,
    LoadClosure,
    LoadDeref,
    StoreDeref,
    CallFunctionKw,
    LoadMethod,
    CallMethod,
    ErgPopNth,
    ErgPeekNth,
    ErgInc,
    ErgDec,
    ErgLoadFastImmut,
    ErgStoreFastImmut,
    ErgMoveFast,
    ErgCloneFast,
    ErgCopyFast,
    ErgRefFast,
    ErgRefMutFast,
    ErgMoveOuter,
    ErgCloneOuter,
    ErgCopyOuter,
    ErgRefOuter,
    ErgRefMutOuter,
    ErgLessThan,
    ErgLessEqual,
    ErgEqual,
    ErgNotEqual,
    ErgMakeSlot,
    ErgMakeType,
    ErgMakePureFunction,
    ErgCallPureFunction,
    ErgLoadEmptySlot,
    ErgLoadEmptyStr,
    ErgLoad1Nat,
    ErgLoad1Int,
    ErgLoad1Real,
    ErgLoadNone,
    ErgMutate,
    ErgStoreSubscr,
    ErgBinarySubscr,
    ErgBinaryRange,
    ErgTryBinaryDivide,
    ErgBinaryTrueDivide,
    NotImplemented,
}

/// The byte an opcode stands for.
pub open spec fn op_byte(op: Opcode) -> u8 {
    match op {
        Opcode::PopTop => 1,
        Opcode::RotTwo => 2,
        Opcode::RotThree => 3,
        Opcode::DupTop => 4,
        Opcode::DupTop2 => 5,
        Opcode::RotFour => 6,
        Opcode::Nop => 9,
        Opcode::UnaryPositive => 10,
        Opcode::UnaryNegative => 11,
        Opcode::UnaryNot => 12,
        Opcode::UnaryInvert => 15,
        Opcode::BinaryMatrixMultiply => 16,
        Opcode::InplaceMatrixMultiply => 17,
        Opcode::BinaryPower => 19,
        Opcode::BinaryMultiply => 20,
        Opcode::BinaryModulo => 22,
        Opcode::BinaryAdd => 23,
        Opcode::BinarySubtract => 24,
        Opcode::BinarySubscr => 25,
        Opcode::BinaryTrueDivide => 27,
        Opcode::InplaceFloorDivide => 28,
        Opcode::InplaceTrueDivide => 29,
        Opcode::GetLen => 30,
        Opcode::MatchMapping => 31,
        Opcode::MatchSequence => 32,
        Opcode::MatchKeys => 33,
        Opcode::PushExcInfo => 35,
        Opcode::CheckExcMatch => 36,
        Opcode::CheckEgMatch => 37,
        Opcode::WithExceptStart => 49,
        Opcode::GetAiter => 50,
        Opcode::GetAnext => 51,
        Opcode::BeforeAsyncWith => 52,
        Opcode::BeforeWith => 53,
        Opcode::EndAsyncFor => 54,
        Opcode::InplaceAdd => 55,
        Opcode::InplaceSubtract => 56,
        Opcode::InplaceMultiply => 57,
        Opcode::InplaceModulo => 59,
        Opcode::StoreSubscr => 60,
        Opcode::BinaryAnd => 64,
        Opcode::BinaryXor => 65,
        Opcode::BinaryOr => 66,
        Opcode::GetIter => 68,
        Opcode::GetYieldFromIter => 69,
        Opcode::PrintExpr => 70,
        Opcode::LoadBuildClass => 71,
        Opcode::LoadAssertionError => 74,
        Opcode::ReturnValue => 83,
        Opcode::StoreName => 90,
        Opcode::DeleteName => 91,
        Opcode::UnpackSequence => 92,
        Opcode::ForIter => 93,
        Opcode::UnpackEx => 94,
        Opcode::StoreAttr => 95,
        Opcode::StoreGlobal => 97,
        Opcode::LoadConst => 100,
        Opcode::LoadName => 101,
        Opcode::BuildTuple => 102,
        Opcode::BuildList => 103,
        Opcode::BuildSet => 104,
        Opcode::BuildMap => 105,
        Opcode::LoadAttr => 106,
        Opcode::CompareOp => 107,
        Opcode::ImportName => 108,
        Opcode::ImportFrom => 109,
        Opcode::JumpForward => 110,
        Opcode::JumpIfFalseOrPop => 111,
        Opcode::JumpIfTrueOrPop => 112,
        Opcode::JumpAbsolute => 113,
        Opcode::PopJumpIfFalse => 114,
        Opcode::PopJumpIfTrue => 115,
        Opcode::LoadGlobal => 116,
        Opcode::IsOp => 117,
        Opcode::ContainsOp => 118,
        Opcode::LoadFast => 124,
        Opcode::StoreFast => 125,
        Opcode::DeleteFast => 126,
        Opcode::RaiseVarargs => 130,
        Opcode::CallFunction => 131,
        Opcode::MakeFunction => 132,
        Opcode::LoadClosure => 135,
        Opcode::LoadDeref => 136,
        Opcode::StoreDeref => 137,
        Opcode::CallFunctionKw => 141,
        Opcode::LoadMethod => 160,
        Opcode::CallMethod => 161,
        Opcode::ErgPopNth => 196,
        Opcode::ErgPeekNth => 197,
        Opcode::ErgInc => 198,
        Opcode::ErgDec => 199,
        Opcode::ErgLoadFastImmut => 200,
        Opcode::ErgStoreFastImmut => 201,
        Opcode::ErgMoveFast => 202,
        Opcode::ErgCloneFast => 203,
        Opcode::ErgCopyFast => 204,
        Opcode::ErgRefFast => 205,
        Opcode::ErgRefMutFast => 206,
        Opcode::ErgMoveOuter => 207,
        Opcode::ErgCloneOuter => 208,
        Opcode::ErgCopyOuter => 209,
        Opcode::ErgRefOuter => 210,
        Opcode::ErgRefMutOuter => 211,
        Opcode::ErgLessThan => 212,
        Opcode::ErgLessEqual => 213,
        Opcode::ErgEqual => 214,
        Opcode::ErgNotEqual => 215,
        Opcode::ErgMakeSlot => 216,
        Opcode::ErgMakeType => 217,
        Opcode::ErgMakePureFunction => 218,
        Opcode::ErgCallPureFunction => 219,
        Opcode::ErgLoadEmptySlot => 242,
        Opcode::ErgLoadEmptyStr => 243,
        Opcode::ErgLoad1Nat => 244,
        Opcode::ErgLoad1Int => 245,
        Opcode::ErgLoad1Real => 246,
        Opcode::ErgLoadNone => 247,
        Opcode::ErgMutate => 248,
        Opcode::ErgStoreSubscr => 249,
        Opcode::ErgBinarySubscr => 251,
        Opcode::ErgBinaryRange => 252,
        Opcode::ErgTryBinaryDivide => 253,
        Opcode::ErgBinaryTrueDivide => 254,
        Opcode::NotImplemented => 255,
    }
}

/// The opcode a byte stands for, if any.
pub open spec fn spec_from_byte(b: u8) -> Option<Opcode> {
    match b {
        1 => Some(Opcode::PopTop),
        2 => Some(Opcode::RotTwo),
        3 => Some(Opcode::RotThree),
        4 => Some(Opcode::DupTop),
        5 => Some(Opcode::DupTop2),
        6 => Some(Opcode::RotFour),
        9 => Some(Opcode::Nop),
        10 => Some(Opcode::UnaryPositive),
        11 => Some(Opcode::UnaryNegative),
        12 => Some(Opcode::UnaryNot),
        15 => Some(Opcode::UnaryInvert),
        16 => Some(Opcode::BinaryMatrixMultiply),
        17 => Some(Opcode::InplaceMatrixMultiply),
        19 => Some(Opcode::BinaryPower),
        20 => Some(Opcode::BinaryMultiply),
        22 => Some(Opcode::BinaryModulo),
        23 => Some(Opcode::BinaryAdd),
        24 => Some(Opcode::BinarySubtract),
        25 => Some(Opcode::BinarySubscr),
        27 => Some(Opcode::BinaryTrueDivide),
        28 => Some(Opcode::InplaceFloorDivide),
        29 => Some(Opcode::InplaceTrueDivide),
        30 => Some(Opcode::GetLen),
        31 => Some(Opcode::MatchMapping),
        32 => Some(Opcode::MatchSequence),
        33 => Some(Opcode::MatchKeys),
        35 => Some(Opcode::PushExcInfo),
        36 => Some(Opcode::CheckExcMatch),
        37 => Some(Opcode::CheckEgMatch),
        49 => Some(Opcode::WithExceptStart),
        50 => Some(Opcode::GetAiter),
        51 => Some(Opcode::GetAnext),
        52 => Some(Opcode::BeforeAsyncWith),
        53 => Some(Opcode::BeforeWith),
        54 => Some(Opcode::EndAsyncFor),
        55 => Some(Opcode::InplaceAdd),
        56 => Some(Opcode::InplaceSubtract),
        57 => Some(Opcode::InplaceMultiply),
        59 => Some(Opcode::InplaceModulo),
        60 => Some(Opcode::StoreSubscr),
        64 => Some(Opcode::BinaryAnd),
        65 => Some(Opcode::BinaryXor),
        66 => Some(Opcode::BinaryOr),
        68 => Some(Opcode::GetIter),
        69 => Some(Opcode::GetYieldFromIter),
        70 => Some(Opcode::PrintExpr),
        71 => Some(Opcode::LoadBuildClass),
        74 => Some(Opcode::LoadAssertionError),
        83 => Some(Opcode::ReturnValue),
        90 => Some(Opcode::StoreName),
        91 => Some(Opcode::DeleteName),
        92 => Some(Opcode::UnpackSequence),
        93 => Some(Opcode::ForIter),
        94 => Some(Opcode::UnpackEx),
        95 => Some(Opcode::StoreAttr),
        97 => Some(Opcode::StoreGlobal),
        100 => Some(Opcode::LoadConst),
        101 => Some(Opcode::LoadName),
        102 => Some(Opcode::BuildTuple),
        103 => Some(Opcode::BuildList),
        104 => Some(Opcode::BuildSet),
        105 => Some(Opcode::BuildMap),
        106 => Some(Opcode::LoadAttr),
        107 => Some(Opcode::CompareOp),
        108 => Some(Opcode::ImportName),
        109 => Some(Opcode::ImportFrom),
        110 => Some(Opcode::JumpForward),
        111 => Some(Opcode::JumpIfFalseOrPop),
        112 => Some(Opcode::JumpIfTrueOrPop),
        113 => Some(Opcode::JumpAbsolute),
        114 => Some(Opcode::PopJumpIfFalse),
        115 => Some(Opcode::PopJumpIfTrue),
        116 => Some(Opcode::LoadGlobal),
        117 => Some(Opcode::IsOp),
        118 => Some(Opcode::ContainsOp),
        124 => Some(Opcode::LoadFast),
        125 => Some(Opcode::StoreFast),
        126 => Some(Opcode::DeleteFast),
        130 => Some(Opcode::RaiseVarargs),
        131 => Some(Opcode::CallFunction),
        132 => Some(Opcode::MakeFunction),
        135 => Some(Opcode::LoadClosure),
        136 => Some(Opcode::LoadDeref),
        137 => Some(Opcode::StoreDeref),
        141 => Some(Opcode::CallFunctionKw),
        160 => Some(Opcode::LoadMethod),
        161 => Some(Opcode::CallMethod),
        196 => Some(Opcode::ErgPopNth),
        197 => Some(Opcode::ErgPeekNth),
        198 => Some(Opcode::ErgInc),
        199 => Some(Opcode::ErgDec),
        200 => Some(Opcode::ErgLoadFastImmut),
        201 => Some(Opcode::ErgStoreFastImmut),
        202 => Some(Opcode::ErgMoveFast),
        203 => Some(Opcode::ErgCloneFast),
        204 => Some(Opcode::ErgCopyFast),
        205 => Some(Opcode::ErgRefFast),
        206 => Some(Opcode::ErgRefMutFast),
        207 => Some(Opcode::ErgMoveOuter),
        208 => Some(Opcode::ErgCloneOuter),
        209 => Some(Opcode::ErgCopyOuter),
        210 => Some(Opcode::ErgRefOuter),
        211 => Some(Opcode::ErgRefMutOuter),
        212 => Some(Opcode::ErgLessThan),
        213 => Some(Opcode::ErgLessEqual),
        214 => Some(Opcode::ErgEqual),
        215 => Some(Opcode::ErgNotEqual),
        216 => Some(Opcode::ErgMakeSlot),
        217 => Some(Opcode::ErgMakeType),
        218 => Some(Opcode::ErgMakePureFunction),
        219 => Some(Opcode::ErgCallPureFunction),
        242 => Some(Opcode::ErgLoadEmptySlot),
        243 => Some(Opcode::ErgLoadEmptyStr),
        244 => Some(Opcode::ErgLoad1Nat),
        245 => Some(Opcode::ErgLoad1Int),
        246 => Some(Opcode::ErgLoad1Real),
        247 => Some(Opcode::ErgLoadNone),
        248 => Some(Opcode::ErgMutate),
        249 => Some(Opcode::ErgStoreSubscr),
        251 => Some(Opcode::ErgBinarySubscr),
        252 => Some(Opcode::ErgBinaryRange),
        253 => Some(Opcode::ErgTryBinaryDivide),
        254 => Some(Opcode::ErgBinaryTrueDivide),
        255 => Some(Opcode::NotImplemented),
        _ => None,
    }
}

impl Opcode {
    /// The byte this opcode stands for.
    pub fn to_byte(&self) -> (r: u8)
        ensures
            r == op_byte(*self),
    {
        match self {
            Opcode::PopTop => 1,
            Opcode::RotTwo => 2,
            Opcode::RotThree => 3,
            Opcode::DupTop => 4,
            Opcode::DupTop2 => 5,
            Opcode::RotFour => 6,
            Opcode::Nop => 9,
            Opcode::UnaryPositive => 10,
            Opcode::UnaryNegative => 11,
            Opcode::UnaryNot => 12,
            Opcode::UnaryInvert => 15,
            Opcode::BinaryMatrixMultiply => 16,
            Opcode::InplaceMatrixMultiply => 17,
            Opcode::BinaryPower => 19,
            Opcode::BinaryMultiply => 20,
            Opcode::BinaryModulo => 22,
            Opcode::BinaryAdd => 23,
            Opcode::BinarySubtract => 24,
            Opcode::BinarySubscr => 25,
            Opcode::BinaryTrueDivide => 27,
            Opcode::InplaceFloorDivide => 28,
            Opcode::InplaceTrueDivide => 29,
            Opcode::GetLen => 30,
            Opcode::MatchMapping => 31,
            Opcode::MatchSequence => 32,
            Opcode::MatchKeys => 33,
            Opcode::PushExcInfo => 35,
            Opcode::CheckExcMatch => 36,
            Opcode::CheckEgMatch => 37,
            Opcode::WithExceptStart => 49,
            Opcode::GetAiter => 50,
            Opcode::GetAnext => 51,
            Opcode::BeforeAsyncWith => 52,
            Opcode::BeforeWith => 53,
            Opcode::EndAsyncFor => 54,
            Opcode::InplaceAdd => 55,
            Opcode::InplaceSubtract => 56,
            Opcode::InplaceMultiply => 57,
            Opcode::InplaceModulo => 59,
            Opcode::StoreSubscr => 60,
            Opcode::BinaryAnd => 64,
            Opcode::BinaryXor => 65,
            Opcode::BinaryOr => 66,
            Opcode::GetIter => 68,
            Opcode::GetYieldFromIter => 69,
            Opcode::PrintExpr => 70,
            Opcode::LoadBuildClass => 71,
            Opcode::LoadAssertionError => 74,
            Opcode::ReturnValue => 83,
            Opcode::StoreName => 90,
            Opcode::DeleteName => 91,
            Opcode::UnpackSequence => 92,
            Opcode::ForIter => 93,
            Opcode::UnpackEx => 94,
            Opcode::StoreAttr => 95,
            Opcode::StoreGlobal => 97,
            Opcode::LoadConst => 100,
            Opcode::LoadName => 101,
            Opcode::BuildTuple => 102,
            Opcode::BuildList => 103,
            Opcode::BuildSet => 104,
            Opcode::BuildMap => 105,
            Opcode::LoadAttr => 106,
            Opcode::CompareOp => 107,
            Opcode::ImportName => 108,
            Opcode::ImportFrom => 109,
            Opcode::JumpForward => 110,
            Opcode::JumpIfFalseOrPop => 111,
            Opcode::JumpIfTrueOrPop => 112,
            Opcode::JumpAbsolute => 113,
            Opcode::PopJumpIfFalse => 114,
            Opcode::PopJumpIfTrue => 115,
            Opcode::LoadGlobal => 116,
            Opcode::IsOp => 117,
            Opcode::ContainsOp => 118,
            Opcode::LoadFast => 124,
            Opcode::StoreFast => 125,
            Opcode::DeleteFast => 126,
            Opcode::RaiseVarargs => 130,
            Opcode::CallFunction => 131,
            Opcode::MakeFunction => 132,
            Opcode::LoadClosure => 135,
            Opcode::LoadDeref => 136,
            Opcode::StoreDeref => 137,
            Opcode::CallFunctionKw => 141,
            Opcode::LoadMethod => 160,
            Opcode::CallMethod => 161,
            Opcode::ErgPopNth => 196,
            Opcode::ErgPeekNth => 197,
            Opcode::ErgInc => 198,
            Opcode::ErgDec => 199,
            Opcode::ErgLoadFastImmut => 200,
            Opcode::ErgStoreFastImmut => 201,
            Opcode::ErgMoveFast => 202,
            Opcode::ErgCloneFast => 203,
            Opcode::ErgCopyFast => 204,
            Opcode::ErgRefFast => 205,
            Opcode::ErgRefMutFast => 206,
            Opcode::ErgMoveOuter => 207,
            Opcode::ErgCloneOuter => 208,
            Opcode::ErgCopyOuter => 209,
            Opcode::ErgRefOuter => 210,
            Opcode::ErgRefMutOuter => 211,
            Opcode::ErgLessThan => 212,
            Opcode::ErgLessEqual => 213,
            Opcode::ErgEqual => 214,
            Opcode::ErgNotEqual => 215,
            Opcode::ErgMakeSlot => 216,
            Opcode::ErgMakeType => 217,
            Opcode::ErgMakePureFunction => 218,
            Opcode::ErgCallPureFunction => 219,
            Opcode::ErgLoadEmptySlot => 242,
            Opcode::ErgLoadEmptyStr => 243,
            Opcode::ErgLoad1Nat => 244,
            Opcode::ErgLoad1Int => 245,
            Opcode::ErgLoad1Real => 246,
            Opcode::ErgLoadNone => 247,
            Opcode::ErgMutate => 248,
            Opcode::ErgStoreSubscr => 249,
            Opcode::ErgBinarySubscr => 251,
            Opcode::ErgBinaryRange => 252,
            Opcode::ErgTryBinaryDivide => 253,
            Opcode::ErgBinaryTrueDivide => 254,
            Opcode::NotImplemented => 255,
        }
    }

    /// Decodes a byte; bytes outside the table decode to nothing.
    pub fn from_byte(b: u8) -> (r: Option<Opcode>)
        ensures
            r == spec_from_byte(b),
    {
        match b {
            1 => Some(Opcode::PopTop),
            2 => Some(Opcode::RotTwo),
            3 => Some(Opcode::RotThree),
            4 => Some(Opcode::DupTop),
            5 => Some(Opcode::DupTop2),
            6 => Some(Opcode::RotFour),
            9 => Some(Opcode::Nop),
            10 => Some(Opcode::UnaryPositive),
            11 => Some(Opcode::UnaryNegative),
            12 => Some(Opcode::UnaryNot),
            15 => Some(Opcode::UnaryInvert),
            16 => Some(Opcode::BinaryMatrixMultiply),
            17 => Some(Opcode::InplaceMatrixMultiply),
            19 => Some(Opcode::BinaryPower),
            20 => Some(Opcode::BinaryMultiply),
            22 => Some(Opcode::BinaryModulo),
            23 => Some(Opcode::BinaryAdd),
            24 => Some(Opcode::BinarySubtract),
            25 => Some(Opcode::BinarySubscr),
            27 => Some(Opcode::BinaryTrueDivide),
            28 => Some(Opcode::InplaceFloorDivide),
            29 => Some(Opcode::InplaceTrueDivide),
            30 => Some(Opcode::GetLen),
            31 => Some(Opcode::MatchMapping),
            32 => Some(Opcode::MatchSequence),
            33 => Some(Opcode::MatchKeys),
            35 => Some(Opcode::PushExcInfo),
            36 => Some(Opcode::CheckExcMatch),
            37 => Some(Opcode::CheckEgMatch),
            49 => Some(Opcode::WithExceptStart),
            50 => Some(Opcode::GetAiter),
            51 => Some(Opcode::GetAnext),
            52 => Some(Opcode::BeforeAsyncWith),
            53 => Some(Opcode::BeforeWith),
            54 => Some(Opcode::EndAsyncFor),
            55 => Some(Opcode::InplaceAdd),
            56 => Some(Opcode::InplaceSubtract),
            57 => Some(Opcode::InplaceMultiply),
            59 => Some(Opcode::InplaceModulo),
            60 => Some(Opcode::StoreSubscr),
            64 => Some(Opcode::BinaryAnd),
            65 => Some(Opcode::BinaryXor),
            66 => Some(Opcode::BinaryOr),
            68 => Some(Opcode::GetIter),
            69 => Some(Opcode::GetYieldFromIter),
            70 => Some(Opcode::PrintExpr),
            71 => Some(Opcode::LoadBuildClass),
            74 => Some(Opcode::LoadAssertionError),
            83 => Some(Opcode::ReturnValue),
            90 => Some(Opcode::StoreName),
            91 => Some(Opcode::DeleteName),
            92 => Some(Opcode::UnpackSequence),
            93 => Some(Opcode::ForIter),
            94 => Some(Opcode::UnpackEx),
            95 => Some(Opcode::StoreAttr),
            97 => Some(Opcode::StoreGlobal),
            100 => Some(Opcode::LoadConst),
            101 => Some(Opcode::LoadName),
            102 => Some(Opcode::BuildTuple),
            103 => Some(Opcode::BuildList),
            104 => Some(Opcode::BuildSet),
            105 => Some(Opcode::BuildMap),
            106 => Some(Opcode::LoadAttr),
            107 => Some(Opcode::CompareOp),
            108 => Some(Opcode::ImportName),
            109 => Some(Opcode::ImportFrom),
            110 => Some(Opcode::JumpForward),
            111 => Some(Opcode::JumpIfFalseOrPop),
            112 => Some(Opcode::JumpIfTrueOrPop),
            113 => Some(Opcode::JumpAbsolute),
            114 => Some(Opcode::PopJumpIfFalse),
            115 => Some(Opcode::PopJumpIfTrue),
            116 => Some(Opcode::LoadGlobal),
            117 => Some(Opcode::IsOp),
            118 => Some(Opcode::ContainsOp),
            124 => Some(Opcode::LoadFast),
            125 => Some(Opcode::StoreFast),
            126 => Some(Opcode::DeleteFast),
            130 => Some(Opcode::RaiseVarargs),
            131 => Some(Opcode::CallFunction),
            132 => Some(Opcode::MakeFunction),
            135 => Some(Opcode::LoadClosure),
            136 => Some(Opcode::LoadDeref),
            137 => Some(Opcode::StoreDeref),
            141 => Some(Opcode::CallFunctionKw),
            160 => Some(Opcode::LoadMethod),
            161 => Some(Opcode::CallMethod),
            196 => Some(Opcode::ErgPopNth),
            197 => Some(Opcode::ErgPeekNth),
            198 => Some(Opcode::ErgInc),
            199 => Some(Opcode::ErgDec),
            200 => Some(Opcode::ErgLoadFastImmut),
            201 => Some(Opcode::ErgStoreFastImmut),
            202 => Some(Opcode::ErgMoveFast),
            203 => Some(Opcode::ErgCloneFast),
            204 => Some(Opcode::ErgCopyFast),
            205 => Some(Opcode::ErgRefFast),
            206 => Some(Opcode::ErgRefMutFast),
            207 => Some(Opcode::ErgMoveOuter),
            208 => Some(Opcode::ErgCloneOuter),
            209 => Some(Opcode::ErgCopyOuter),
            210 => Some(Opcode::ErgRefOuter),
            211 => Some(Opcode::ErgRefMutOuter),
            212 => Some(Opcode::ErgLessThan),
            213 => Some(Opcode::ErgLessEqual),
            214 => Some(Opcode::ErgEqual),
            215 => Some(Opcode::ErgNotEqual),
            216 => Some(Opcode::ErgMakeSlot),
            217 => Some(Opcode::ErgMakeType),
            218 => Some(Opcode::ErgMakePureFunction),
            219 => Some(Opcode::ErgCallPureFunction),
            242 => Some(Opcode::ErgLoadEmptySlot),
            243 => Some(Opcode::ErgLoadEmptyStr),
            244 => Some(Opcode::ErgLoad1Nat),
            245 => Some(Opcode::ErgLoad1Int),
            246 => Some(Opcode::ErgLoad1Real),
            247 => Some(Opcode::ErgLoadNone),
            248 => Some(Opcode::ErgMutate),
            249 => Some(Opcode::ErgStoreSubscr),
            251 => Some(Opcode::ErgBinarySubscr),
            252 => Some(Opcode::ErgBinaryRange),
            253 => Some(Opcode::ErgTryBinaryDivide),
            254 => Some(Opcode::ErgBinaryTrueDivide),
            255 => Some(Opcode::NotImplemented),
            _ => None,
        }
    }

    /// Whether the opcode takes an argument: exactly the contiguous
    /// band of codes from the first named store up to the last pure
    /// call.
    pub fn take_arg(&self) -> (r: bool)
        ensures
            r == (90 <= op_byte(*self) && op_byte(*self) < 220),
    {
        let b = self.to_byte();
        90 <= b && b < 220
    }
}

/// Decoding inverts encoding: every opcode comes back from its byte.
pub proof fn lemma_opcode_round_trip(op: Opcode)
    ensures
        spec_from_byte(op_byte(op)) == Some(op),
{
}

} // verus!
