//! The machine that code is compiled for.

use crate::machine::CallingConvention;
use vstd::prelude::*;

verus! {

/// The architecture of a target.
#[derive(Clone, Copy, Debug, PartialEq, Eq, Structural, Hash)]
pub enum Architecture {
    /// 64-bit x86.
    X86_64,
    /// 32-bit x86.
    I686,
    /// 64-bit ARM.
    Aarch64,
    /// 32-bit ARM.
    Arm,
    /// 64-bit RISC-V.
    Riscv64,
    /// An architecture that is not known.
    Unknown,
}

/// The operating system of a target.
#[derive(Clone, Copy, Debug, PartialEq, Eq, Structural, Hash)]
pub enum OperatingSystem {
    /// Linux.
    Linux,
    /// Windows.
    Windows,
    /// macOS.
    Darwin,
    /// FreeBSD.
    Freebsd,
    /// An operating system that is not known.
    Unknown,
}

/// A feature of the CPU that compiled code may rely on.
#[derive(Clone, Copy, Debug, PartialEq, Eq, Structural, Hash)]
pub enum CpuFeature {
    /// SSE2
    SSE2,
    /// SSE3
    SSE3,
    /// SSSE3
    SSSE3,
    /// SSE4.1
    SSE41,
    /// SSE4.2
    SSE42,
    /// POPCNT
    POPCNT,
    /// AVX
    AVX,
    /// BMI1
    BMI1,
    /// BMI2
    BMI2,
    /// AVX2
    AVX2,
    /// AVX-512 DQ
    AVX512DQ,
    /// AVX-512 VL
    AVX512VL,
    /// AVX-512 F
    AVX512F,
    /// LZCNT
    LZCNT,
}

impl CpuFeature {
    /// The value of the bit that stands for this feature in a set of features.
    pub open spec fn spec_bit(self) -> u64 {
        match self {
            CpuFeature::SSE2 => 0x1,
            CpuFeature::SSE3 => 0x2,
            CpuFeature::SSSE3 => 0x4,
            CpuFeature::SSE41 => 0x8,
            CpuFeature::SSE42 => 0x10,
            CpuFeature::POPCNT => 0x20,
            CpuFeature::AVX => 0x40,
            CpuFeature::BMI1 => 0x80,
            CpuFeature::BMI2 => 0x100,
            CpuFeature::AVX2 => 0x200,
            CpuFeature::AVX512DQ => 0x400,
            CpuFeature::AVX512VL => 0x800,
            CpuFeature::AVX512F => 0x1000,
            CpuFeature::LZCNT => 0x2000,
        }
    }

    /// The value of the bit that stands for this feature in a set of features.
    #[verifier::when_used_as_spec(spec_bit)]
    pub fn bit(self) -> (bit: u64)
        ensures
            bit == self.spec_bit(),
    {
        match self {
            CpuFeature::SSE2 => 0x1,
            CpuFeature::SSE3 => 0x2,
            CpuFeature::SSSE3 => 0x4,
            CpuFeature::SSE41 => 0x8,
            CpuFeature::SSE42 => 0x10,
            CpuFeature::POPCNT => 0x20,
            CpuFeature::AVX => 0x40,
            CpuFeature::BMI1 => 0x80,
            CpuFeature::BMI2 => 0x100,
            CpuFeature::AVX2 => 0x200,
            CpuFeature::AVX512DQ => 0x400,
            CpuFeature::AVX512VL => 0x800,
            CpuFeature::AVX512F => 0x1000,
            CpuFeature::LZCNT => 0x2000,
        }
    }
}

/// The name of a CPU feature.
pub open spec fn feature_name(feature: CpuFeature) -> Seq<char> {
    match feature {
        CpuFeature::SSE2 => "sse2"@,
        CpuFeature::SSE3 => "sse3"@,
        CpuFeature::SSSE3 => "ssse3"@,
        CpuFeature::SSE41 => "sse4.1"@,
        CpuFeature::SSE42 => "sse4.2"@,
        CpuFeature::POPCNT => "popcnt"@,
        CpuFeature::AVX => "avx"@,
        CpuFeature::BMI1 => "bmi"@,
        CpuFeature::BMI2 => "bmi2"@,
        CpuFeature::AVX2 => "avx2"@,
        CpuFeature::AVX512DQ => "avx512dq"@,
        CpuFeature::AVX512VL => "avx512vl"@,
        CpuFeature::AVX512F => "avx512f"@,
        CpuFeature::LZCNT => "lzcnt"@,
    }
}

/// All the CPU features, in the order of their bits.
pub open spec fn all_features() -> Seq<CpuFeature> {
    seq![
        CpuFeature::SSE2,
        CpuFeature::SSE3,
        CpuFeature::SSSE3,
        CpuFeature::SSE41,
        CpuFeature::SSE42,
        CpuFeature::POPCNT,
        CpuFeature::AVX,
        CpuFeature::BMI1,
        CpuFeature::BMI2,
        CpuFeature::AVX2,
        CpuFeature::AVX512DQ,
        CpuFeature::AVX512VL,
        CpuFeature::AVX512F,
        CpuFeature::LZCNT,
    ]
}

impl CpuFeature {
    /// The name of the feature.
    pub fn name(&self) -> (name: &'static str)
        ensures
            name@ == feature_name(*self),
    {
        match self {
            CpuFeature::SSE2 => "sse2",
            CpuFeature::SSE3 => "sse3",
            CpuFeature::SSSE3 => "ssse3",
            CpuFeature::SSE41 => "sse4.1",
            CpuFeature::SSE42 => "sse4.2",
            CpuFeature::POPCNT => "popcnt",
            CpuFeature::AVX => "avx",
            CpuFeature::BMI1 => "bmi",
            CpuFeature::BMI2 => "bmi2",
            CpuFeature::AVX2 => "avx2",
            CpuFeature::AVX512DQ => "avx512dq",
            CpuFeature::AVX512VL => "avx512vl",
            CpuFeature::AVX512F => "avx512f",
            CpuFeature::LZCNT => "lzcnt",
        }
    }

    /// All the CPU features, in the order of their bits.
    pub fn all() -> (features: [CpuFeature; 14])
        ensures
            features@ == all_features(),
    {
        [
            CpuFeature::SSE2,
            CpuFeature::SSE3,
            CpuFeature::SSSE3,
            CpuFeature::SSE41,
            CpuFeature::SSE42,
            CpuFeature::POPCNT,
            CpuFeature::AVX,
            CpuFeature::BMI1,
            CpuFeature::BMI2,
            CpuFeature::AVX2,
            CpuFeature::AVX512DQ,
            CpuFeature::AVX512VL,
            CpuFeature::AVX512F,
            CpuFeature::LZCNT,
        ]
    }
}

/// Whether the set of features `set`, one bit each, has `feature`.
pub open spec fn has_feature(set: u64, feature: CpuFeature) -> bool {
    (set / feature.bit()) % 2 == 1
}

/// The machine that code is compiled for: its architecture, its operating
/// system, and the features of its CPU.
#[derive(Clone, Copy, Debug, PartialEq, Eq, Structural)]
pub struct Target {
    /// The architecture.
    pub architecture: Architecture,
    /// The operating system.
    pub operating_system: OperatingSystem,
    /// The features of the CPU, one bit each.
    pub cpu_features: u64,
}

/// The name of an architecture.
pub open spec fn architecture_name(architecture: Architecture) -> Seq<char> {
    match architecture {
        Architecture::X86_64 => "x86_64"@,
        Architecture::I686 => "i686"@,
        Architecture::Aarch64 => "aarch64"@,
        Architecture::Arm => "arm"@,
        Architecture::Riscv64 => "riscv64"@,
        Architecture::Unknown => "unknown"@,
    }
}

/// The calling convention that an operating system uses by default, where one is known.
pub open spec fn default_convention(operating_system: OperatingSystem) -> Option<CallingConvention> {
    match operating_system {
        OperatingSystem::Windows => Some(CallingConvention::WindowsFastcall),
        OperatingSystem::Linux => Some(CallingConvention::SystemV),
        OperatingSystem::Darwin => Some(CallingConvention::SystemV),
        OperatingSystem::Freebsd => Some(CallingConvention::SystemV),
        OperatingSystem::Unknown => None,
    }
}

impl Architecture {
    /// The name of the architecture.
    pub fn name(&self) -> (name: &'static str)
        ensures
            name@ == architecture_name(*self),
    {
        match self {
            Architecture::X86_64 => "x86_64",
            Architecture::I686 => "i686",
            Architecture::Aarch64 => "aarch64",
            Architecture::Arm => "arm",
            Architecture::Riscv64 => "riscv64",
            Architecture::Unknown => "unknown",
        }
    }

    /// The size of a pointer on the architecture, in bytes, where it is known.
    pub fn pointer_width(&self) -> (bytes: Option<u8>)
        ensures
            bytes == match *self {
                Architecture::X86_64 => Some(8u8),
                Architecture::I686 => Some(4u8),
                Architecture::Aarch64 => Some(8u8),
                Architecture::Arm => Some(4u8),
                Architecture::Riscv64 => Some(8u8),
                Architecture::Unknown => None,
            },
    {
        match self {
            Architecture::X86_64 => Some(8),
            Architecture::I686 => Some(4),
            Architecture::Aarch64 => Some(8),
            Architecture::Arm => Some(4),
            Architecture::Riscv64 => Some(8),
            Architecture::Unknown => None,
        }
    }
}

/// Whether the set of features `set`, one bit each, has `feature`.
pub fn set_has(set: u64, feature: CpuFeature) -> (has: bool)
    ensures
        has == has_feature(set, feature),
{
    (set / feature.bit()) % 2 == 1
}

impl Target {
    /// Creates a new target given an architecture, an operating system and a set of CPU features.
    pub fn new(architecture: Architecture, operating_system: OperatingSystem, cpu_features: u64) -> (target:
        Self)
        ensures
            target == (Target { architecture, operating_system, cpu_features }),
    {
        Target { architecture, operating_system, cpu_features }
    }

    /// Whether the CPU of the target has `feature`.
    pub fn has(&self, feature: CpuFeature) -> (has: bool)
        ensures
            has == has_feature(self.cpu_features, feature),
    {
        (self.cpu_features / feature.bit()) % 2 == 1
    }

    /// The calling convention that the target uses by default, where one is known.
    pub fn default_calling_convention(&self) -> (convention: Option<CallingConvention>)
        ensures
            convention == default_convention(self.operating_system),
    {
        match self.operating_system {
            OperatingSystem::Windows => Some(CallingConvention::WindowsFastcall),
            OperatingSystem::Linux => Some(CallingConvention::SystemV),
            OperatingSystem::Darwin => Some(CallingConvention::SystemV),
            OperatingSystem::Freebsd => Some(CallingConvention::SystemV),
            OperatingSystem::Unknown => None,
        }
    }
}

} // verus!
