//! The hardware's exception causes.
use vstd::prelude::*;

verus! {

/// The condition that a fault's cause register reports. Each named variant
/// stands for one code from 0 to 39, in the order listed; `NoCause` means that
/// no defined cause was reported (code 255, or any code above 39).
#[allow(missing_docs)]
#[derive(Debug, Clone, Copy, PartialEq, Eq, Structural)]
pub enum ExceptionCause {
    /// Illegal instruction
    IllegalInstruction,
    /// System call (syscall instruction)
    Syscall,
    /// Instruction fetch error
    InstrFetchError,
    /// Load or store error
    LoadStoreError,
    /// Level 1 interrupt
    LevelOneInterrupt,
    /// Stack extension assist (movsp instruction) for alloca
    Alloca,
    /// Integer divide by zero
    DivideByZero,
    /// Use of failed speculative access (not implemented)
    NextPCValueIllegal,
    /// Privileged instruction
    PrivilegedInstruction,
    /// Unaligned load or store
    UnalignedLoadOrStore,
    /// Reserved
    ExternalRegisterPrivilegeError,
    /// Reserved
    ExclusiveError,
    /// PIF data error on instruction fetch
    InstrDataError,
    /// PIF data error on load or store
    LoadStoreDataError,
    /// PIF address error on instruction fetch
    InstrAddrError,
    /// PIF address error on load or store
    LoadStoreAddrError,
    /// ITLB miss (no ITLB entry matches, hardware refill also missed)
    ItlbMiss,
    /// ITLB multihit (multiple ITLB entries match)
    ItlbMultiHit,
    /// Ring privilege violation on instruction fetch
    InstrRing,
    /// Size restriction on instruction fetch (not implemented)
    Reserved19,
    /// Cache attribute does not allow instruction fetch
    InstrProhibited,
    /// Reserved
    Reserved21,
    /// Reserved
    Reserved22,
    /// Reserved
    Reserved23,
    /// DTLB miss (no DTLB entry matches, hardware refill also missed)
    DtlbMiss,
    /// DTLB multihit (multiple DTLB entries match)
    DtlbMultiHit,
    /// Ring privilege violation on load or store
    LoadStoreRing,
    /// Size restriction on load or store (not implemented)
    Reserved27,
    /// Cache attribute does not allow load
    LoadProhibited,
    /// Cache attribute does not allow store
    StoreProhibited,
    /// Reserved
    Reserved30,
    /// Reserved
    Reserved31,
    /// Access to coprocessor 0 when disabled
    Cp0Disabled,
    /// Access to coprocessor 1 when disabled
    Cp1Disabled,
    /// Access to coprocessor 2 when disabled
    Cp2Disabled,
    /// Access to coprocessor 3 when disabled
    Cp3Disabled,
    /// Access to coprocessor 4 when disabled
    Cp4Disabled,
    /// Access to coprocessor 5 when disabled
    Cp5Disabled,
    /// Access to coprocessor 6 when disabled
    Cp6Disabled,
    /// Access to coprocessor 7 when disabled
    Cp7Disabled,
    /// No defined cause
    NoCause,
}

/// The code that the hardware reports for each cause.
pub open spec fn code_of(c: ExceptionCause) -> u32 {
    match c {
        ExceptionCause::IllegalInstruction => 0,
        ExceptionCause::Syscall => 1,
        ExceptionCause::InstrFetchError => 2,
        ExceptionCause::LoadStoreError => 3,
        ExceptionCause::LevelOneInterrupt => 4,
        ExceptionCause::Alloca => 5,
        ExceptionCause::DivideByZero => 6,
        ExceptionCause::NextPCValueIllegal => 7,
        ExceptionCause::PrivilegedInstruction => 8,
        ExceptionCause::UnalignedLoadOrStore => 9,
        ExceptionCause::ExternalRegisterPrivilegeError => 10,
        ExceptionCause::ExclusiveError => 11,
        ExceptionCause::InstrDataError => 12,
        ExceptionCause::LoadStoreDataError => 13,
        ExceptionCause::InstrAddrError => 14,
        ExceptionCause::LoadStoreAddrError => 15,
        ExceptionCause::ItlbMiss => 16,
        ExceptionCause::ItlbMultiHit => 17,
        ExceptionCause::InstrRing => 18,
        ExceptionCause::Reserved19 => 19,
        ExceptionCause::InstrProhibited => 20,
        ExceptionCause::Reserved21 => 21,
        ExceptionCause::Reserved22 => 22,
        ExceptionCause::Reserved23 => 23,
        ExceptionCause::DtlbMiss => 24,
        ExceptionCause::DtlbMultiHit => 25,
        ExceptionCause::LoadStoreRing => 26,
        ExceptionCause::Reserved27 => 27,
        ExceptionCause::LoadProhibited => 28,
        ExceptionCause::StoreProhibited => 29,
        ExceptionCause::Reserved30 => 30,
        ExceptionCause::Reserved31 => 31,
        ExceptionCause::Cp0Disabled => 32,
        ExceptionCause::Cp1Disabled => 33,
        ExceptionCause::Cp2Disabled => 34,
        ExceptionCause::Cp3Disabled => 35,
        ExceptionCause::Cp4Disabled => 36,
        ExceptionCause::Cp5Disabled => 37,
        ExceptionCause::Cp6Disabled => 38,
        ExceptionCause::Cp7Disabled => 39,
        ExceptionCause::NoCause => 255,
    }
}

/// The cause that a reported code stands for.
pub open spec fn cause_of(code: u32) -> ExceptionCause {
    match code {
        0 => ExceptionCause::IllegalInstruction,
        1 => ExceptionCause::Syscall,
        2 => ExceptionCause::InstrFetchError,
        3 => ExceptionCause::LoadStoreError,
        4 => ExceptionCause::LevelOneInterrupt,
        5 => ExceptionCause::Alloca,
        6 => ExceptionCause::DivideByZero,
        7 => ExceptionCause::NextPCValueIllegal,
        8 => ExceptionCause::PrivilegedInstruction,
        9 => ExceptionCause::UnalignedLoadOrStore,
        10 => ExceptionCause::ExternalRegisterPrivilegeError,
        11 => ExceptionCause::ExclusiveError,
        12 => ExceptionCause::InstrDataError,
        13 => ExceptionCause::LoadStoreDataError,
        14 => ExceptionCause::InstrAddrError,
        15 => ExceptionCause::LoadStoreAddrError,
        16 => ExceptionCause::ItlbMiss,
        17 => ExceptionCause::ItlbMultiHit,
        18 => ExceptionCause::InstrRing,
        19 => ExceptionCause::Reserved19,
        20 => ExceptionCause::InstrProhibited,
        21 => ExceptionCause::Reserved21,
        22 => ExceptionCause::Reserved22,
        23 => ExceptionCause::Reserved23,
        24 => ExceptionCause::DtlbMiss,
        25 => ExceptionCause::DtlbMultiHit,
        26 => ExceptionCause::LoadStoreRing,
        27 => ExceptionCause::Reserved27,
        28 => ExceptionCause::LoadProhibited,
        29 => ExceptionCause::StoreProhibited,
        30 => ExceptionCause::Reserved30,
        31 => ExceptionCause::Reserved31,
        32 => ExceptionCause::Cp0Disabled,
        33 => ExceptionCause::Cp1Disabled,
        34 => ExceptionCause::Cp2Disabled,
        35 => ExceptionCause::Cp3Disabled,
        36 => ExceptionCause::Cp4Disabled,
        37 => ExceptionCause::Cp5Disabled,
        38 => ExceptionCause::Cp6Disabled,
        39 => ExceptionCause::Cp7Disabled,
        _ => ExceptionCause::NoCause,
    }
}

impl ExceptionCause {
    /// Decodes the value of the cause register.
    pub fn from_code(code: u32) -> (r: ExceptionCause)
        ensures
            r == cause_of(code),
            code < 40 ==> code_of(r) == code,
            code >= 40 ==> r == ExceptionCause::NoCause,
    {
        match code {
            0 => ExceptionCause::IllegalInstruction,
            1 => ExceptionCause::Syscall,
            2 => ExceptionCause::InstrFetchError,
            3 => ExceptionCause::LoadStoreError,
            4 => ExceptionCause::LevelOneInterrupt,
            5 => ExceptionCause::Alloca,
            6 => ExceptionCause::DivideByZero,
            7 => ExceptionCause::NextPCValueIllegal,
            8 => ExceptionCause::PrivilegedInstruction,
            9 => ExceptionCause::UnalignedLoadOrStore,
            10 => ExceptionCause::ExternalRegisterPrivilegeError,
            11 => ExceptionCause::ExclusiveError,
            12 => ExceptionCause::InstrDataError,
            13 => ExceptionCause::LoadStoreDataError,
            14 => ExceptionCause::InstrAddrError,
            15 => ExceptionCause::LoadStoreAddrError,
            16 => ExceptionCause::ItlbMiss,
            17 => ExceptionCause::ItlbMultiHit,
            18 => ExceptionCause::InstrRing,
            19 => ExceptionCause::Reserved19,
            20 => ExceptionCause::InstrProhibited,
            21 => ExceptionCause::Reserved21,
            22 => ExceptionCause::Reserved22,
            23 => ExceptionCause::Reserved23,
            24 => ExceptionCause::DtlbMiss,
            25 => ExceptionCause::DtlbMultiHit,
            26 => ExceptionCause::LoadStoreRing,
            27 => ExceptionCause::Reserved27,
            28 => ExceptionCause::LoadProhibited,
            29 => ExceptionCause::StoreProhibited,
            30 => ExceptionCause::Reserved30,
            31 => ExceptionCause::Reserved31,
            32 => ExceptionCause::Cp0Disabled,
            33 => ExceptionCause::Cp1Disabled,
            34 => ExceptionCause::Cp2Disabled,
            35 => ExceptionCause::Cp3Disabled,
            36 => ExceptionCause::Cp4Disabled,
            37 => ExceptionCause::Cp5Disabled,
            38 => ExceptionCause::Cp6Disabled,
            39 => ExceptionCause::Cp7Disabled,
            _ => ExceptionCause::NoCause,
        }
    }

    /// The code that the hardware reports for this cause.
    pub fn code(&self) -> (r: u32)
        ensures
            r == code_of(*self),
    {
        match self {
            ExceptionCause::IllegalInstruction => 0,
            ExceptionCause::Syscall => 1,
            ExceptionCause::InstrFetchError => 2,
            ExceptionCause::LoadStoreError => 3,
            ExceptionCause::LevelOneInterrupt => 4,
            ExceptionCause::Alloca => 5,
            ExceptionCause::DivideByZero => 6,
            ExceptionCause::NextPCValueIllegal => 7,
            ExceptionCause::PrivilegedInstruction => 8,
            ExceptionCause::UnalignedLoadOrStore => 9,
            ExceptionCause::ExternalRegisterPrivilegeError => 10,
            ExceptionCause::ExclusiveError => 11,
            ExceptionCause::InstrDataError => 12,
            ExceptionCause::LoadStoreDataError => 13,
            ExceptionCause::InstrAddrError => 14,
            ExceptionCause::LoadStoreAddrError => 15,
            ExceptionCause::ItlbMiss => 16,
            ExceptionCause::ItlbMultiHit => 17,
            ExceptionCause::InstrRing => 18,
            ExceptionCause::Reserved19 => 19,
            ExceptionCause::InstrProhibited => 20,
            ExceptionCause::Reserved21 => 21,
            ExceptionCause::Reserved22 => 22,
            ExceptionCause::Reserved23 => 23,
            ExceptionCause::DtlbMiss => 24,
            ExceptionCause::DtlbMultiHit => 25,
            ExceptionCause::LoadStoreRing => 26,
            ExceptionCause::Reserved27 => 27,
            ExceptionCause::LoadProhibited => 28,
            ExceptionCause::StoreProhibited => 29,
            ExceptionCause::Reserved30 => 30,
            ExceptionCause::Reserved31 => 31,
            ExceptionCause::Cp0Disabled => 32,
            ExceptionCause::Cp1Disabled => 33,
            ExceptionCause::Cp2Disabled => 34,
            ExceptionCause::Cp3Disabled => 35,
            ExceptionCause::Cp4Disabled => 36,
            ExceptionCause::Cp5Disabled => 37,
            ExceptionCause::Cp6Disabled => 38,
            ExceptionCause::Cp7Disabled => 39,
            ExceptionCause::NoCause => 255,
        }
    }
}

/// Every cause is recovered from its own code.
pub proof fn lemma_cause_round_trip(c: ExceptionCause)
    ensures
        cause_of(code_of(c)) == c,
{
}

/// Every defined code, 0 to 39, names a cause other than `NoCause` whose code it
/// is; every other code, 255 included, decodes to `NoCause`.
pub proof fn lemma_code_round_trip(code: u32)
    ensures
        code < 40 ==> cause_of(code) != ExceptionCause::NoCause && code_of(cause_of(code)) == code,
        code >= 40 ==> cause_of(code) == ExceptionCause::NoCause,
{
}

/// Distinct causes have distinct codes.
pub proof fn lemma_code_injective(a: ExceptionCause, b: ExceptionCause)
    requires
        code_of(a) == code_of(b),
    ensures
        a == b,
{
    lemma_cause_round_trip(a);
    lemma_cause_round_trip(b);
}

} // verus!
