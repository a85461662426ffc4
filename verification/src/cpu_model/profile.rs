//! The CPUID profile of each named CPU model.
//!
//! Model names and feature sets follow the x86 CPU maps that libvirt keeps for
//! QEMU's models.
use vstd::prelude::*;

verus! {

/// Leaf 0x1 `edx` of every model.
pub const LEAF_1_EDX: u32 = (1 << 0) | (1 << 1) | (1 << 2) | (1 << 3) | (1 << 4) | (1 << 5)
    | (1 << 6) | (1 << 7) | (1 << 8) | (1 << 9) | (1 << 11) | (1 << 12) | (1 << 13) | (1 << 14)
    | (1 << 15) | (1 << 16) | (1 << 17) | (1 << 19) | (1 << 23) | (1 << 24) | (1 << 25)
    | (1 << 26);

/// Leaf 0x1 `ecx` of the Intel models.
pub const INTEL_LEAF_1_ECX: u32 = (1 << 0) | (1 << 1) | (1 << 9) | (1 << 12) | (1 << 13)
    | (1 << 17) | (1 << 19) | (1 << 20) | (1 << 21) | (1 << 22) | (1 << 23) | (1 << 24)
    | (1 << 25) | (1 << 26) | (1 << 28) | (1 << 29) | (1 << 30) | (1 << 31);

/// Leaf 0x1 `ecx` of the AMD models.
pub const AMD_LEAF_1_ECX: u32 = (1 << 0) | (1 << 1) | (1 << 9) | (1 << 12) | (1 << 13)
    | (1 << 19) | (1 << 20) | (1 << 21) | (1 << 22) | (1 << 23) | (1 << 25) | (1 << 26)
    | (1 << 28) | (1 << 29) | (1 << 30) | (1 << 31);

/// Leaf 0x1 `ecx`: VMX, which nested guests of an Intel model need.
pub const LEAF_1_ECX_VMX: u32 = 1 << 5;

/// Leaf 0x1 `ecx`: PCID, which EPYC Milan adds to the AMD models.
pub const LEAF_1_ECX_PCID: u32 = 1 << 17;

/// Leaf 0x80000001 `ecx` of the Intel models.
pub const INTEL_EXTENDED_ECX: u32 = (1 << 0) | (1 << 5) | (1 << 8);

/// Leaf 0x80000001 `ecx` of the AMD models.
pub const AMD_EXTENDED_ECX: u32 = (1 << 0) | (1 << 4) | (1 << 5) | (1 << 6) | (1 << 7) | (1 << 8)
    | (1 << 9);

/// Leaf 0x80000001 `ecx`: SVM, which nested guests of an AMD model need.
pub const EXTENDED_ECX_SVM: u32 = 1 << 2;

/// Leaf 0x80000001 `ecx`: core performance counters, from EPYC Rome on.
pub const EXTENDED_ECX_PERFCTR_CORE: u32 = 1 << 23;

/// Leaf 0x80000001 `edx` of the Intel models.
pub const INTEL_EXTENDED_EDX: u32 = (1 << 11) | (1 << 20) | (1 << 26) | (1 << 27) | (1 << 29);

/// Leaf 0x80000001 `edx` of the AMD models.
pub const AMD_EXTENDED_EDX: u32 = (1 << 0) | (1 << 1) | (1 << 2) | (1 << 3) | (1 << 4) | (1 << 5)
    | (1 << 6) | (1 << 7) | (1 << 8) | (1 << 9) | (1 << 11) | (1 << 12) | (1 << 13) | (1 << 14)
    | (1 << 15) | (1 << 16) | (1 << 17) | (1 << 20) | (1 << 22) | (1 << 23) | (1 << 24)
    | (1 << 25) | (1 << 26) | (1 << 27) | (1 << 29);

/// Leaf 0x7 `ebx`: the two TSX features, HLE and RTM.
pub const TSX: u32 = (1 << 4) | (1 << 11);

/// Leaf 0x7 `ebx` of the Skylake family.
pub const SKYLAKE_LEAF_7_EBX: u32 = (1 << 0) | (1 << 3) | (1 << 4) | (1 << 5) | (1 << 7)
    | (1 << 8) | (1 << 9) | (1 << 10) | (1 << 11) | (1 << 16) | (1 << 17) | (1 << 18) | (1 << 19)
    | (1 << 20) | (1 << 24) | (1 << 28) | (1 << 30) | (1 << 31);

/// Leaf 0x7 `ebx` of the Cascade Lake family.
pub const CASCADELAKE_LEAF_7_EBX: u32 = (1 << 0) | (1 << 3) | (1 << 4) | (1 << 5) | (1 << 7)
    | (1 << 8) | (1 << 9) | (1 << 10) | (1 << 11) | (1 << 16) | (1 << 17) | (1 << 18) | (1 << 19)
    | (1 << 20) | (1 << 23) | (1 << 24) | (1 << 28) | (1 << 30) | (1 << 31);

/// Leaf 0x7 `ebx` of the Ice Lake family.
pub const ICELAKE_LEAF_7_EBX: u32 = (1 << 0) | (1 << 3) | (1 << 4) | (1 << 5) | (1 << 7)
    | (1 << 8) | (1 << 9) | (1 << 10) | (1 << 11) | (1 << 16) | (1 << 17) | (1 << 18) | (1 << 19)
    | (1 << 20) | (1 << 23) | (1 << 24) | (1 << 28) | (1 << 30) | (1 << 31);

/// Leaf 0x7 `ebx` of EPYC.
pub const EPYC_LEAF_7_EBX: u32 = (1 << 0) | (1 << 3) | (1 << 5) | (1 << 7) | (1 << 8) | (1 << 18)
    | (1 << 19) | (1 << 20) | (1 << 23) | (1 << 29);

/// Leaf 0x7 `ebx` of EPYC Rome.
pub const ROME_LEAF_7_EBX: u32 = (1 << 0) | (1 << 3) | (1 << 5) | (1 << 7) | (1 << 8) | (1 << 18)
    | (1 << 19) | (1 << 20) | (1 << 23) | (1 << 24) | (1 << 29);

/// Leaf 0x7 `ebx` of EPYC Milan.
pub const MILAN_LEAF_7_EBX: u32 = (1 << 0) | (1 << 3) | (1 << 5) | (1 << 7) | (1 << 8) | (1 << 9)
    | (1 << 10) | (1 << 18) | (1 << 19) | (1 << 20) | (1 << 23) | (1 << 24) | (1 << 29);

/// Leaf 0x7 `ecx` of the Cascade Lake family.
pub const CASCADELAKE_LEAF_7_ECX: u32 = 1 << 11;

/// Leaf 0x7 `ecx` of the Ice Lake family.
pub const ICELAKE_LEAF_7_ECX: u32 = (1 << 1) | (1 << 2) | (1 << 3) | (1 << 6) | (1 << 8)
    | (1 << 9) | (1 << 10) | (1 << 11) | (1 << 12) | (1 << 14) | (1 << 16);

/// Leaf 0x7 `ecx` of EPYC Rome.
pub const ROME_LEAF_7_ECX: u32 = (1 << 2) | (1 << 22);

/// Leaf 0x7 `ecx` of EPYC Milan.
pub const MILAN_LEAF_7_ECX: u32 = (1 << 2) | (1 << 3) | (1 << 22);

/// Leaf 0x7 `edx` of the Skylake models with IBRS.
pub const LEAF_7_EDX_IBRS: u32 = 1 << 26;

/// Leaf 0x7 `edx` of the Cascade Lake and Ice Lake families.
pub const LEAF_7_EDX_IBRS_SSBD: u32 = (1 << 26) | (1 << 31);

/// Leaf 0x7 `edx` of EPYC Milan.
pub const MILAN_LEAF_7_EDX: u32 = 1 << 4;

/// Leaf 0x80000008 `ebx` of the Ice Lake family.
pub const ICELAKE_EXTENDED_8_EBX: u32 = 1 << 9;

/// Leaf 0x80000008 `ebx` of EPYC Rome.
pub const ROME_EXTENDED_8_EBX: u32 = (1 << 0) | (1 << 2) | (1 << 9) | (1 << 12) | (1 << 15);

/// Leaf 0x80000008 `ebx` of EPYC Milan.
pub const MILAN_EXTENDED_8_EBX: u32 = (1 << 0) | (1 << 2) | (1 << 9) | (1 << 12) | (1 << 14)
    | (1 << 15) | (1 << 24);

/// Leaf 0x8000000a `edx` of EPYC Rome, for nested guests.
pub const ROME_EXTENDED_A_EDX: u32 = (1 << 0) | (1 << 3);

/// Leaf 0x8000000a `edx` of EPYC Milan, for nested guests.
pub const MILAN_EXTENDED_A_EDX: u32 = (1 << 0) | (1 << 3) | (1 << 28);

/// Leaf 0xd `eax` of the Skylake and Cascade Lake families.
pub const AVX512_XCR0: u32 = (1 << 0) | (1 << 1) | (1 << 2) | (1 << 5) | (1 << 6) | (1 << 7);

/// Leaf 0xd `eax` of the Ice Lake family.
pub const ICELAKE_XCR0: u32 = (1 << 0) | (1 << 1) | (1 << 2) | (1 << 5) | (1 << 6) | (1 << 7)
    | (1 << 9);

/// Leaf 0xd `eax` of EPYC and EPYC Rome.
pub const AVX_XCR0: u32 = (1 << 0) | (1 << 1) | (1 << 2);

/// Leaf 0xd `eax` of EPYC Milan.
pub const MILAN_XCR0: u32 = (1 << 0) | (1 << 1) | (1 << 2) | (1 << 9);

/// Leaf 0xd, subleaf 0x1 `eax` of every model but EPYC Milan.
pub const XSAVE_1_EAX: u32 = (1 << 0) | (1 << 1) | (1 << 2);

/// Leaf 0xd, subleaf 0x1 `eax` of EPYC Milan.
pub const MILAN_XSAVE_1_EAX: u32 = (1 << 0) | (1 << 1) | (1 << 2) | (1 << 3);

/// The maker of a CPU.
#[derive(Clone, Copy, Debug, PartialEq, Eq, Structural)]
pub enum CpuVendor {
    Unknown,
    Intel,
    AMD,
}

impl CpuVendor {
    /// The vendor's name.
    pub open spec fn text(self) -> Seq<char> {
        match self {
            CpuVendor::Unknown => "Unknown"@,
            CpuVendor::Intel => "Intel"@,
            CpuVendor::AMD => "AMD"@,
        }
    }

    /// The vendor's name.
    pub fn name(&self) -> (s: &'static str)
        ensures
            s@ == self.text(),
    {
        match self {
            CpuVendor::Unknown => "Unknown",
            CpuVendor::Intel => "Intel",
            CpuVendor::AMD => "AMD",
        }
    }
}

/// The CPU models that a guest can be given.
#[derive(Clone, Copy, Debug, PartialEq, Eq, Structural)]
pub enum CpuModel {
    SkylakeServer,
    SkylakeServerIbrs,
    SkylakeServerNoTsxIbrs,
    CascadelakeServer,
    CascadelakeServerNoTsx,
    IcelakeServer,
    IcelakeServerNoTsx,
    Epyc,
    EpycRome,
    EpycMilan,
}

/// The microarchitecture that a model belongs to.
pub enum Family {
    Skylake,
    Cascadelake,
    Icelake,
    Epyc,
    Rome,
    Milan,
}

impl CpuModel {
    /// The model's name.
    pub open spec fn text(self) -> Seq<char> {
        match self {
            CpuModel::SkylakeServer => "Skylake-Server"@,
            CpuModel::SkylakeServerIbrs => "Skylake-Server-IBRS"@,
            CpuModel::SkylakeServerNoTsxIbrs => "Skylake-Server-noTSX-IBRS"@,
            CpuModel::CascadelakeServer => "Cascadelake-Server"@,
            CpuModel::CascadelakeServerNoTsx => "Cascadelake-Server-noTSX"@,
            CpuModel::IcelakeServer => "Icelake-Server"@,
            CpuModel::IcelakeServerNoTsx => "Icelake-Server-noTSX"@,
            CpuModel::Epyc => "EPYC"@,
            CpuModel::EpycRome => "EPYC-Rome"@,
            CpuModel::EpycMilan => "EPYC-Milan"@,
        }
    }

    /// The model's name.
    pub fn to_string(&self) -> (s: String)
        ensures
            s@ == self.text(),
    {
        let name = match self {
            CpuModel::SkylakeServer => "Skylake-Server",
            CpuModel::SkylakeServerIbrs => "Skylake-Server-IBRS",
            CpuModel::SkylakeServerNoTsxIbrs => "Skylake-Server-noTSX-IBRS",
            CpuModel::CascadelakeServer => "Cascadelake-Server",
            CpuModel::CascadelakeServerNoTsx => "Cascadelake-Server-noTSX",
            CpuModel::IcelakeServer => "Icelake-Server",
            CpuModel::IcelakeServerNoTsx => "Icelake-Server-noTSX",
            CpuModel::Epyc => "EPYC",
            CpuModel::EpycRome => "EPYC-Rome",
            CpuModel::EpycMilan => "EPYC-Milan",
        };
        name.to_owned()
    }

    /// The microarchitecture that the model belongs to.
    pub open spec fn family(self) -> Family {
        match self {
            CpuModel::SkylakeServer
            | CpuModel::SkylakeServerIbrs
            | CpuModel::SkylakeServerNoTsxIbrs => Family::Skylake,
            CpuModel::CascadelakeServer | CpuModel::CascadelakeServerNoTsx => Family::Cascadelake,
            CpuModel::IcelakeServer | CpuModel::IcelakeServerNoTsx => Family::Icelake,
            CpuModel::Epyc => Family::Epyc,
            CpuModel::EpycRome => Family::Rome,
            CpuModel::EpycMilan => Family::Milan,
        }
    }

    /// The model leaves out the TSX features that its family has.
    pub open spec fn without_tsx(self) -> bool {
        self is SkylakeServerNoTsxIbrs || self is CascadelakeServerNoTsx
            || self is IcelakeServerNoTsx
    }

    /// The model whose profile a variant starts from.
    pub open spec fn base(self) -> CpuModel {
        match self {
            CpuModel::SkylakeServerIbrs => CpuModel::SkylakeServer,
            CpuModel::SkylakeServerNoTsxIbrs => CpuModel::SkylakeServerIbrs,
            CpuModel::CascadelakeServerNoTsx => CpuModel::CascadelakeServer,
            CpuModel::IcelakeServerNoTsx => CpuModel::IcelakeServer,
            _ => self,
        }
    }

    /// How many variants lie between the model and one described on its own.
    pub open spec fn variant_depth(self) -> nat {
        match self {
            CpuModel::SkylakeServerNoTsxIbrs => 2,
            CpuModel::SkylakeServerIbrs
            | CpuModel::CascadelakeServerNoTsx
            | CpuModel::IcelakeServerNoTsx => 1,
            _ => 0,
        }
    }
}

impl Family {
    pub open spec fn vendor(self) -> CpuVendor {
        match self {
            Family::Skylake | Family::Cascadelake | Family::Icelake => CpuVendor::Intel,
            Family::Epyc | Family::Rome | Family::Milan => CpuVendor::AMD,
        }
    }

    /// Family, model and stepping, as leaf 0x1 `eax` packs them.
    pub open spec fn signature(self) -> u32 {
        match self {
            Family::Skylake => 0x0005_0654,
            Family::Cascadelake => 0x0005_0657,
            Family::Icelake => 0x0006_06a6,
            Family::Epyc => 0x0080_0f12,
            Family::Rome => 0x0083_0f10,
            Family::Milan => 0x00a0_0f11,
        }
    }

    pub open spec fn max_extended_leaf(self) -> u32 {
        match self.vendor() {
            CpuVendor::Intel => 0x8000_0008,
            _ => 0x8000_001e,
        }
    }

    pub open spec fn brand(self) -> &'static str {
        match self {
            Family::Skylake => "Intel Xeon Processor (Skylake)",
            Family::Cascadelake => "Intel Xeon Processor (Cascade Lake)",
            Family::Icelake => "Intel Xeon Processor (Ice Lake)",
            Family::Epyc => "AMD EPYC Processor",
            Family::Rome => "AMD EPYC Rome Processor",
            Family::Milan => "AMD EPYC Milan Processor",
        }
    }

    pub open spec fn leaf_1_ecx(self, nested: bool) -> u32 {
        match self.vendor() {
            CpuVendor::Intel => INTEL_LEAF_1_ECX | if nested {
                LEAF_1_ECX_VMX
            } else {
                0
            },
            _ => AMD_LEAF_1_ECX | if self is Milan {
                LEAF_1_ECX_PCID
            } else {
                0
            },
        }
    }

    pub open spec fn leaf_7_ebx(self) -> u32 {
        match self {
            Family::Skylake => SKYLAKE_LEAF_7_EBX,
            Family::Cascadelake => CASCADELAKE_LEAF_7_EBX,
            Family::Icelake => ICELAKE_LEAF_7_EBX,
            Family::Epyc => EPYC_LEAF_7_EBX,
            Family::Rome => ROME_LEAF_7_EBX,
            Family::Milan => MILAN_LEAF_7_EBX,
        }
    }

    pub open spec fn leaf_7_ecx(self) -> u32 {
        match self {
            Family::Skylake | Family::Epyc => 0,
            Family::Cascadelake => CASCADELAKE_LEAF_7_ECX,
            Family::Icelake => ICELAKE_LEAF_7_ECX,
            Family::Rome => ROME_LEAF_7_ECX,
            Family::Milan => MILAN_LEAF_7_ECX,
        }
    }

    pub open spec fn extended_1_ecx(self, nested: bool) -> u32 {
        let amd = AMD_EXTENDED_ECX | if nested {
            EXTENDED_ECX_SVM
        } else {
            0
        };
        match self {
            Family::Skylake | Family::Cascadelake | Family::Icelake => INTEL_EXTENDED_ECX,
            Family::Epyc => amd,
            Family::Rome | Family::Milan => amd | EXTENDED_ECX_PERFCTR_CORE,
        }
    }

    pub open spec fn extended_1_edx(self) -> u32 {
        match self.vendor() {
            CpuVendor::Intel => INTEL_EXTENDED_EDX,
            _ => AMD_EXTENDED_EDX,
        }
    }

    pub open spec fn extended_8_ebx(self) -> u32 {
        match self {
            Family::Skylake | Family::Cascadelake | Family::Epyc => 0,
            Family::Icelake => ICELAKE_EXTENDED_8_EBX,
            Family::Rome => ROME_EXTENDED_8_EBX,
            Family::Milan => MILAN_EXTENDED_8_EBX,
        }
    }

    pub open spec fn extended_a_edx(self, nested: bool) -> u32 {
        match self {
            Family::Rome if nested => ROME_EXTENDED_A_EDX,
            Family::Milan if nested => MILAN_EXTENDED_A_EDX,
            _ => 0,
        }
    }

    pub open spec fn xcr0(self) -> u32 {
        match self {
            Family::Skylake | Family::Cascadelake => AVX512_XCR0,
            Family::Icelake => ICELAKE_XCR0,
            Family::Epyc | Family::Rome => AVX_XCR0,
            Family::Milan => MILAN_XCR0,
        }
    }

    pub open spec fn xsave_1_eax(self) -> u32 {
        match self {
            Family::Milan => MILAN_XSAVE_1_EAX,
            _ => XSAVE_1_EAX,
        }
    }
}

/// Leaf 0x7 `ebx` of a model: its family's, less TSX where the model leaves it out.
pub open spec fn leaf_7_ebx_of(model: CpuModel) -> u32 {
    if model.without_tsx() {
        model.family().leaf_7_ebx() & !TSX
    } else {
        model.family().leaf_7_ebx()
    }
}

/// Leaf 0x7 `edx` of a model.
pub open spec fn leaf_7_edx_of(model: CpuModel) -> u32 {
    match model {
        CpuModel::SkylakeServerIbrs | CpuModel::SkylakeServerNoTsxIbrs => LEAF_7_EDX_IBRS,
        CpuModel::CascadelakeServer
        | CpuModel::CascadelakeServerNoTsx
        | CpuModel::IcelakeServer
        | CpuModel::IcelakeServerNoTsx => LEAF_7_EDX_IBRS_SSBD,
        CpuModel::EpycMilan => MILAN_LEAF_7_EDX,
        CpuModel::SkylakeServer | CpuModel::Epyc | CpuModel::EpycRome => 0,
    }
}

/// The profile of a model, with or without what nested guests need.
pub open spec fn profile_of(model: CpuModel, nested: bool) -> CpuModelProfile {
    let family = model.family();
    CpuModelProfile {
        vendor: family.vendor(),
        signature: family.signature(),
        max_extended_leaf: family.max_extended_leaf(),
        brand: family.brand(),
        leaf_1_ecx: family.leaf_1_ecx(nested),
        leaf_7_ebx: leaf_7_ebx_of(model),
        leaf_7_ecx: family.leaf_7_ecx(),
        leaf_7_edx: leaf_7_edx_of(model),
        extended_1_ecx: family.extended_1_ecx(nested),
        extended_1_edx: family.extended_1_edx(),
        extended_8_ebx: family.extended_8_ebx(),
        extended_a_edx: family.extended_a_edx(nested),
        xcr0: family.xcr0(),
        xsave_1_eax: family.xsave_1_eax(),
    }
}

/// What the guest sees in the CPUID registers that a model fixes.
#[derive(Clone, Copy)]
pub struct CpuModelProfile {
    pub vendor: CpuVendor,
    pub signature: u32,
    pub max_extended_leaf: u32,
    pub brand: &'static str,
    pub leaf_1_ecx: u32,
    pub leaf_7_ebx: u32,
    pub leaf_7_ecx: u32,
    pub leaf_7_edx: u32,
    pub extended_1_ecx: u32,
    pub extended_1_edx: u32,
    pub extended_8_ebx: u32,
    pub extended_a_edx: u32,
    pub xcr0: u32,
    pub xsave_1_eax: u32,
}

impl CpuModelProfile {
    /// The profile of a model; `nested` adds what nested guests need.
    pub fn for_model(model: CpuModel, nested: bool) -> (profile: Self)
        ensures
            profile == profile_of(model, nested),
        decreases model.variant_depth(),
    {
        let intel_leaf_1_ecx: u32 = INTEL_LEAF_1_ECX | if nested {
            LEAF_1_ECX_VMX
        } else {
            0
        };
        let amd_leaf_1_ecx: u32 = AMD_LEAF_1_ECX | if matches!(model, CpuModel::EpycMilan) {
            LEAF_1_ECX_PCID
        } else {
            0
        };
        let amd_extended_1_ecx: u32 = AMD_EXTENDED_ECX | if nested {
            EXTENDED_ECX_SVM
        } else {
            0
        };
        match model {
            CpuModel::SkylakeServerIbrs => {
                let mut profile = Self::for_model(CpuModel::SkylakeServer, nested);
                profile.leaf_7_edx = LEAF_7_EDX_IBRS;
                profile
            },
            CpuModel::SkylakeServerNoTsxIbrs => {
                let mut profile = Self::for_model(CpuModel::SkylakeServerIbrs, nested);
                profile.leaf_7_ebx = profile.leaf_7_ebx & !TSX;
                profile
            },
            CpuModel::CascadelakeServerNoTsx => {
                let mut profile = Self::for_model(CpuModel::CascadelakeServer, nested);
                profile.leaf_7_ebx = profile.leaf_7_ebx & !TSX;
                profile
            },
            CpuModel::IcelakeServerNoTsx => {
                let mut profile = Self::for_model(CpuModel::IcelakeServer, nested);
                profile.leaf_7_ebx = profile.leaf_7_ebx & !TSX;
                profile
            },
            CpuModel::SkylakeServer => Self {
                vendor: CpuVendor::Intel,
                signature: 0x0005_0654,
                max_extended_leaf: 0x8000_0008,
                brand: "Intel Xeon Processor (Skylake)",
                leaf_1_ecx: intel_leaf_1_ecx,
                leaf_7_ebx: SKYLAKE_LEAF_7_EBX,
                leaf_7_ecx: 0,
                leaf_7_edx: 0,
                extended_1_ecx: INTEL_EXTENDED_ECX,
                extended_1_edx: INTEL_EXTENDED_EDX,
                extended_8_ebx: 0,
                extended_a_edx: 0,
                xcr0: AVX512_XCR0,
                xsave_1_eax: XSAVE_1_EAX,
            },
            CpuModel::CascadelakeServer => Self {
                vendor: CpuVendor::Intel,
                signature: 0x0005_0657,
                max_extended_leaf: 0x8000_0008,
                brand: "Intel Xeon Processor (Cascade Lake)",
                leaf_1_ecx: intel_leaf_1_ecx,
                leaf_7_ebx: CASCADELAKE_LEAF_7_EBX,
                leaf_7_ecx: CASCADELAKE_LEAF_7_ECX,
                leaf_7_edx: LEAF_7_EDX_IBRS_SSBD,
                extended_1_ecx: INTEL_EXTENDED_ECX,
                extended_1_edx: INTEL_EXTENDED_EDX,
                extended_8_ebx: 0,
                extended_a_edx: 0,
                xcr0: AVX512_XCR0,
                xsave_1_eax: XSAVE_1_EAX,
            },
            CpuModel::IcelakeServer => Self {
                vendor: CpuVendor::Intel,
                signature: 0x0006_06a6,
                max_extended_leaf: 0x8000_0008,
                brand: "Intel Xeon Processor (Ice Lake)",
                leaf_1_ecx: intel_leaf_1_ecx,
                leaf_7_ebx: ICELAKE_LEAF_7_EBX,
                leaf_7_ecx: ICELAKE_LEAF_7_ECX,
                leaf_7_edx: LEAF_7_EDX_IBRS_SSBD,
                extended_1_ecx: INTEL_EXTENDED_ECX,
                extended_1_edx: INTEL_EXTENDED_EDX,
                extended_8_ebx: ICELAKE_EXTENDED_8_EBX,
                extended_a_edx: 0,
                xcr0: ICELAKE_XCR0,
                xsave_1_eax: XSAVE_1_EAX,
            },
            CpuModel::Epyc => Self {
                vendor: CpuVendor::AMD,
                signature: 0x0080_0f12,
                max_extended_leaf: 0x8000_001e,
                brand: "AMD EPYC Processor",
                leaf_1_ecx: amd_leaf_1_ecx,
                leaf_7_ebx: EPYC_LEAF_7_EBX,
                leaf_7_ecx: 0,
                leaf_7_edx: 0,
                extended_1_ecx: amd_extended_1_ecx,
                extended_1_edx: AMD_EXTENDED_EDX,
                extended_8_ebx: 0,
                extended_a_edx: 0,
                xcr0: AVX_XCR0,
                xsave_1_eax: XSAVE_1_EAX,
            },
            CpuModel::EpycRome => Self {
                vendor: CpuVendor::AMD,
                signature: 0x0083_0f10,
                max_extended_leaf: 0x8000_001e,
                brand: "AMD EPYC Rome Processor",
                leaf_1_ecx: amd_leaf_1_ecx,
                leaf_7_ebx: ROME_LEAF_7_EBX,
                leaf_7_ecx: ROME_LEAF_7_ECX,
                leaf_7_edx: 0,
                extended_1_ecx: amd_extended_1_ecx | EXTENDED_ECX_PERFCTR_CORE,
                extended_1_edx: AMD_EXTENDED_EDX,
                extended_8_ebx: ROME_EXTENDED_8_EBX,
                extended_a_edx: if nested {
                    ROME_EXTENDED_A_EDX
                } else {
                    0
                },
                xcr0: AVX_XCR0,
                xsave_1_eax: XSAVE_1_EAX,
            },
            CpuModel::EpycMilan => Self {
                vendor: CpuVendor::AMD,
                signature: 0x00a0_0f11,
                max_extended_leaf: 0x8000_001e,
                brand: "AMD EPYC Milan Processor",
                leaf_1_ecx: amd_leaf_1_ecx,
                leaf_7_ebx: MILAN_LEAF_7_EBX,
                leaf_7_ecx: MILAN_LEAF_7_ECX,
                leaf_7_edx: MILAN_LEAF_7_EDX,
                extended_1_ecx: amd_extended_1_ecx | EXTENDED_ECX_PERFCTR_CORE,
                extended_1_edx: AMD_EXTENDED_EDX,
                extended_8_ebx: MILAN_EXTENDED_8_EBX,
                extended_a_edx: if nested {
                    MILAN_EXTENDED_A_EDX
                } else {
                    0
                },
                xcr0: MILAN_XCR0,
                xsave_1_eax: MILAN_XSAVE_1_EAX,
            },
        }
    }
}

} // verus!
