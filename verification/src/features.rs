//! The closed, ordinally indexed sets of recognized capability flags.
//!
//! Each variant's ordinal is the slot it occupies in the identification
//! record's flag array, so the mapping below is pinned variant by
//! variant: reordering it would silently corrupt feature lookups.

use vstd::prelude::*;

use crate::records::CPU_FLAGS_MAX;
use crate::records::SGX_FLAGS_MAX;

verus! {

/// CPU feature identifiers.
#[derive(Clone, Copy, Debug, PartialEq, Eq, Structural)]
pub enum CpuFeature {
    FloatingPointUnit,
    VirtualModeExtension,
    DebugingExtension,
    PageSizeExtension,
    TimestampCounter,
    ModelSpecificRegisters,
    PhysicalAddressExtension,
    MachineCheckException,
    CMPXCHG8B,
    APIC,
    MemoryTypeRangeRegisters,
    SysenterSysexit,
    PageGlobalEnable,
    MachineCheckArchitecture,
    CMOV,
    PageAttributeTable,
    PageAddressExtension36bit,
    ProcessorSerialNumber,
    CLFLUSH,
    DebugStore,
    ACPI,
    MMX,
    FXSAVE,
    SSE,
    SSE2,
    SelfSnoop,
    HyperThreading,
    ThermalMonitor,
    IA64,
    PendingBreakEnable,
    SSE3,
    PCLMULQDQ,
    DebugStore64,
    MONITOR,
    CplQualifiedDebugStore,
    VirtualisationTechnology,
    SaferModeExceptions,
    EnhancedSpeedStep,
    ThermalMonitor2,
    SSSE3,
    ContextId,
    CMPXCHG16B,
    SendTaskPriorityMessages,
    PerformanceCapabilitiesMSR,
    DirectCacheAccess,
    SSE41,
    SSE42,
    SyscallSysret,
    ExecuteDisableBit,
    MOVBE,
    POPCNT,
    AES,
    XSAVE,
    OSXSAVE,
    AdvancedVectorExtensions,
    MMXExtensions,
    AMD3DNow,
    AMD3DNowExtended,
    NoExecuteBit,
    FXSAVEOptimizations,
    RDTSCP,
    LongMode,
    LAHFLongMode,
    CoreMultiProcessingLegacyMode,
    AMDSecureVirtualMachine,
    LZCNT,
    MisalignedSSE,
    SSE4a,
    PREFETCH,
    OsVisibleWorkaround,
    InstructionBasedSampling,
    SSE5,
    SKINIT,
    WatchdogTimer,
    TemperatureSensor,
    FrequencyIDControl,
    VoltageIDControl,
    THERMTRIP,
    AMDThermalControl,
    SoftwareThermalControl,
    Multiplier100Mhz,
    HardwarePstateControl,
    ConstantTSCTicks,
    XOP,
    FMA3,
    FMA4,
    TrailingBitManipulation,
    FPConvert16Bit,
    RDRAND,
    X2APIC,
    CorePerformanceBoost,
    MPERF,
    ProcessorFeedbackInterface,
    ProcessorAccumulator,
    AVX2,
    BMI1,
    BMI2,
    HardwareLockElision,
    RestrictedTransactionalMemory,
    AVX512F,
    AVX512DQ,
    AVX512PF,
    AVX512ER,
    AVX512CD,
    SHASupport,
    AVX512BW,
    AVX512VL,
    SGX,
    RDSEED,
    ArbitraryPrecision,
    NumCpuFeatures,
}

/// The flag-array slot a feature identifier addresses.
pub open spec fn spec_feature_ordinal(f: CpuFeature) -> int {
    match f {
        CpuFeature::FloatingPointUnit => 0,
        CpuFeature::VirtualModeExtension => 1,
        CpuFeature::DebugingExtension => 2,
        CpuFeature::PageSizeExtension => 3,
        CpuFeature::TimestampCounter => 4,
        CpuFeature::ModelSpecificRegisters => 5,
        CpuFeature::PhysicalAddressExtension => 6,
        CpuFeature::MachineCheckException => 7,
        CpuFeature::CMPXCHG8B => 8,
        CpuFeature::APIC => 9,
        CpuFeature::MemoryTypeRangeRegisters => 10,
        CpuFeature::SysenterSysexit => 11,
        CpuFeature::PageGlobalEnable => 12,
        CpuFeature::MachineCheckArchitecture => 13,
        CpuFeature::CMOV => 14,
        CpuFeature::PageAttributeTable => 15,
        CpuFeature::PageAddressExtension36bit => 16,
        CpuFeature::ProcessorSerialNumber => 17,
        CpuFeature::CLFLUSH => 18,
        CpuFeature::DebugStore => 19,
        CpuFeature::ACPI => 20,
        CpuFeature::MMX => 21,
        CpuFeature::FXSAVE => 22,
        CpuFeature::SSE => 23,
        CpuFeature::SSE2 => 24,
        CpuFeature::SelfSnoop => 25,
        CpuFeature::HyperThreading => 26,
        CpuFeature::ThermalMonitor => 27,
        CpuFeature::IA64 => 28,
        CpuFeature::PendingBreakEnable => 29,
        CpuFeature::SSE3 => 30,
        CpuFeature::PCLMULQDQ => 31,
        CpuFeature::DebugStore64 => 32,
        CpuFeature::MONITOR => 33,
        CpuFeature::CplQualifiedDebugStore => 34,
        CpuFeature::VirtualisationTechnology => 35,
        CpuFeature::SaferModeExceptions => 36,
        CpuFeature::EnhancedSpeedStep => 37,
        CpuFeature::ThermalMonitor2 => 38,
        CpuFeature::SSSE3 => 39,
        CpuFeature::ContextId => 40,
        CpuFeature::CMPXCHG16B => 41,
        CpuFeature::SendTaskPriorityMessages => 42,
        CpuFeature::PerformanceCapabilitiesMSR => 43,
        CpuFeature::DirectCacheAccess => 44,
        CpuFeature::SSE41 => 45,
        CpuFeature::SSE42 => 46,
        CpuFeature::SyscallSysret => 47,
        CpuFeature::ExecuteDisableBit => 48,
        CpuFeature::MOVBE => 49,
        CpuFeature::POPCNT => 50,
        CpuFeature::AES => 51,
        CpuFeature::XSAVE => 52,
        CpuFeature::OSXSAVE => 53,
        CpuFeature::AdvancedVectorExtensions => 54,
        CpuFeature::MMXExtensions => 55,
        CpuFeature::AMD3DNow => 56,
        CpuFeature::AMD3DNowExtended => 57,
        CpuFeature::NoExecuteBit => 58,
        CpuFeature::FXSAVEOptimizations => 59,
        CpuFeature::RDTSCP => 60,
        CpuFeature::LongMode => 61,
        CpuFeature::LAHFLongMode => 62,
        CpuFeature::CoreMultiProcessingLegacyMode => 63,
        CpuFeature::AMDSecureVirtualMachine => 64,
        CpuFeature::LZCNT => 65,
        CpuFeature::MisalignedSSE => 66,
        CpuFeature::SSE4a => 67,
        CpuFeature::PREFETCH => 68,
        CpuFeature::OsVisibleWorkaround => 69,
        CpuFeature::InstructionBasedSampling => 70,
        CpuFeature::SSE5 => 71,
        CpuFeature::SKINIT => 72,
        CpuFeature::WatchdogTimer => 73,
        CpuFeature::TemperatureSensor => 74,
        CpuFeature::FrequencyIDControl => 75,
        CpuFeature::VoltageIDControl => 76,
        CpuFeature::THERMTRIP => 77,
        CpuFeature::AMDThermalControl => 78,
        CpuFeature::SoftwareThermalControl => 79,
        CpuFeature::Multiplier100Mhz => 80,
        CpuFeature::HardwarePstateControl => 81,
        CpuFeature::ConstantTSCTicks => 82,
        CpuFeature::XOP => 83,
        CpuFeature::FMA3 => 84,
        CpuFeature::FMA4 => 85,
        CpuFeature::TrailingBitManipulation => 86,
        CpuFeature::FPConvert16Bit => 87,
        CpuFeature::RDRAND => 88,
        CpuFeature::X2APIC => 89,
        CpuFeature::CorePerformanceBoost => 90,
        CpuFeature::MPERF => 91,
        CpuFeature::ProcessorFeedbackInterface => 92,
        CpuFeature::ProcessorAccumulator => 93,
        CpuFeature::AVX2 => 94,
        CpuFeature::BMI1 => 95,
        CpuFeature::BMI2 => 96,
        CpuFeature::HardwareLockElision => 97,
        CpuFeature::RestrictedTransactionalMemory => 98,
        CpuFeature::AVX512F => 99,
        CpuFeature::AVX512DQ => 100,
        CpuFeature::AVX512PF => 101,
        CpuFeature::AVX512ER => 102,
        CpuFeature::AVX512CD => 103,
        CpuFeature::SHASupport => 104,
        CpuFeature::AVX512BW => 105,
        CpuFeature::AVX512VL => 106,
        CpuFeature::SGX => 107,
        CpuFeature::RDSEED => 108,
        CpuFeature::ArbitraryPrecision => 109,
        CpuFeature::NumCpuFeatures => 110,
    }
}

impl CpuFeature {
    /// The flag-array slot this feature identifier addresses; always
    /// inside the flag array's fixed capacity.
    pub fn ordinal(self) -> (i: usize)
        ensures
            i == spec_feature_ordinal(self),
            i < CPU_FLAGS_MAX,
    {
        match self {
            CpuFeature::FloatingPointUnit => 0,
            CpuFeature::VirtualModeExtension => 1,
            CpuFeature::DebugingExtension => 2,
            CpuFeature::PageSizeExtension => 3,
            CpuFeature::TimestampCounter => 4,
            CpuFeature::ModelSpecificRegisters => 5,
            CpuFeature::PhysicalAddressExtension => 6,
            CpuFeature::MachineCheckException => 7,
            CpuFeature::CMPXCHG8B => 8,
            CpuFeature::APIC => 9,
            CpuFeature::MemoryTypeRangeRegisters => 10,
            CpuFeature::SysenterSysexit => 11,
            CpuFeature::PageGlobalEnable => 12,
            CpuFeature::MachineCheckArchitecture => 13,
            CpuFeature::CMOV => 14,
            CpuFeature::PageAttributeTable => 15,
            CpuFeature::PageAddressExtension36bit => 16,
            CpuFeature::ProcessorSerialNumber => 17,
            CpuFeature::CLFLUSH => 18,
            CpuFeature::DebugStore => 19,
            CpuFeature::ACPI => 20,
            CpuFeature::MMX => 21,
            CpuFeature::FXSAVE => 22,
            CpuFeature::SSE => 23,
            CpuFeature::SSE2 => 24,
            CpuFeature::SelfSnoop => 25,
            CpuFeature::HyperThreading => 26,
            CpuFeature::ThermalMonitor => 27,
            CpuFeature::IA64 => 28,
            CpuFeature::PendingBreakEnable => 29,
            CpuFeature::SSE3 => 30,
            CpuFeature::PCLMULQDQ => 31,
            CpuFeature::DebugStore64 => 32,
            CpuFeature::MONITOR => 33,
            CpuFeature::CplQualifiedDebugStore => 34,
            CpuFeature::VirtualisationTechnology => 35,
            CpuFeature::SaferModeExceptions => 36,
            CpuFeature::EnhancedSpeedStep => 37,
            CpuFeature::ThermalMonitor2 => 38,
            CpuFeature::SSSE3 => 39,
            CpuFeature::ContextId => 40,
            CpuFeature::CMPXCHG16B => 41,
            CpuFeature::SendTaskPriorityMessages => 42,
            CpuFeature::PerformanceCapabilitiesMSR => 43,
            CpuFeature::DirectCacheAccess => 44,
            CpuFeature::SSE41 => 45,
            CpuFeature::SSE42 => 46,
            CpuFeature::SyscallSysret => 47,
            CpuFeature::ExecuteDisableBit => 48,
            CpuFeature::MOVBE => 49,
            CpuFeature::POPCNT => 50,
            CpuFeature::AES => 51,
            CpuFeature::XSAVE => 52,
            CpuFeature::OSXSAVE => 53,
            CpuFeature::AdvancedVectorExtensions => 54,
            CpuFeature::MMXExtensions => 55,
            CpuFeature::AMD3DNow => 56,
            CpuFeature::AMD3DNowExtended => 57,
            CpuFeature::NoExecuteBit => 58,
            CpuFeature::FXSAVEOptimizations => 59,
            CpuFeature::RDTSCP => 60,
            CpuFeature::LongMode => 61,
            CpuFeature::LAHFLongMode => 62,
            CpuFeature::CoreMultiProcessingLegacyMode => 63,
            CpuFeature::AMDSecureVirtualMachine => 64,
            CpuFeature::LZCNT => 65,
            CpuFeature::MisalignedSSE => 66,
            CpuFeature::SSE4a => 67,
            CpuFeature::PREFETCH => 68,
            CpuFeature::OsVisibleWorkaround => 69,
            CpuFeature::InstructionBasedSampling => 70,
            CpuFeature::SSE5 => 71,
            CpuFeature::SKINIT => 72,
            CpuFeature::WatchdogTimer => 73,
            CpuFeature::TemperatureSensor => 74,
            CpuFeature::FrequencyIDControl => 75,
            CpuFeature::VoltageIDControl => 76,
            CpuFeature::THERMTRIP => 77,
            CpuFeature::AMDThermalControl => 78,
            CpuFeature::SoftwareThermalControl => 79,
            CpuFeature::Multiplier100Mhz => 80,
            CpuFeature::HardwarePstateControl => 81,
            CpuFeature::ConstantTSCTicks => 82,
            CpuFeature::XOP => 83,
            CpuFeature::FMA3 => 84,
            CpuFeature::FMA4 => 85,
            CpuFeature::TrailingBitManipulation => 86,
            CpuFeature::FPConvert16Bit => 87,
            CpuFeature::RDRAND => 88,
            CpuFeature::X2APIC => 89,
            CpuFeature::CorePerformanceBoost => 90,
            CpuFeature::MPERF => 91,
            CpuFeature::ProcessorFeedbackInterface => 92,
            CpuFeature::ProcessorAccumulator => 93,
            CpuFeature::AVX2 => 94,
            CpuFeature::BMI1 => 95,
            CpuFeature::BMI2 => 96,
            CpuFeature::HardwareLockElision => 97,
            CpuFeature::RestrictedTransactionalMemory => 98,
            CpuFeature::AVX512F => 99,
            CpuFeature::AVX512DQ => 100,
            CpuFeature::AVX512PF => 101,
            CpuFeature::AVX512ER => 102,
            CpuFeature::AVX512CD => 103,
            CpuFeature::SHASupport => 104,
            CpuFeature::AVX512BW => 105,
            CpuFeature::AVX512VL => 106,
            CpuFeature::SGX => 107,
            CpuFeature::RDSEED => 108,
            CpuFeature::ArbitraryPrecision => 109,
            CpuFeature::NumCpuFeatures => 110,
        }
    }
}

/// CPU secure-enclave feature identifiers, with their own independent
/// index space into the enclave sub-record's flag array.
#[derive(Clone, Copy, Debug, PartialEq, Eq, Structural)]
pub enum CpuSGXFeature {
    IntelSGX1,
    IntelSGX2,
    NumSGXFeature,
}

/// The enclave flag-array slot a secure-enclave identifier addresses.
pub open spec fn spec_sgx_feature_ordinal(f: CpuSGXFeature) -> int {
    match f {
        CpuSGXFeature::IntelSGX1 => 0,
        CpuSGXFeature::IntelSGX2 => 1,
        CpuSGXFeature::NumSGXFeature => 2,
    }
}

impl CpuSGXFeature {
    /// The enclave flag-array slot this identifier addresses; always
    /// inside the enclave flag array's fixed capacity.
    pub fn ordinal(self) -> (i: usize)
        ensures
            i == spec_sgx_feature_ordinal(self),
            i < SGX_FLAGS_MAX,
    {
        match self {
            CpuSGXFeature::IntelSGX1 => 0,
            CpuSGXFeature::IntelSGX2 => 1,
            CpuSGXFeature::NumSGXFeature => 2,
        }
    }
}

} // verus!
