//! What the CPU models are documented to be, in plain numbers and words.
use super::error::{Error, Refusal};
use super::profile;
use super::profile::{CpuModel, CpuVendor};
use crate::text;
use vstd::prelude::*;

verus! {

/// The Intel models are those of Skylake, Cascade Lake and Ice Lake, and the AMD
/// models those of EPYC. A model's highest extended leaf is that of its vendor.
pub proof fn law_vendor_of_each_model(model: CpuModel, nested: bool)
    ensures
        ({
            let p = profile::profile_of(model, nested);
            let amd = model is Epyc || model is EpycRome || model is EpycMilan;
            &&& p.vendor == if amd {
                CpuVendor::AMD
            } else {
                CpuVendor::Intel
            }
            &&& p.max_extended_leaf == if amd {
                0x8000_001eu32
            } else {
                0x8000_0008u32
            }
        }),
{
}

/// The signature and the brand of each model.
pub proof fn law_identity_of_each_model(model: CpuModel, nested: bool)
    ensures
        ({
            let p = profile::profile_of(model, nested);
            match model {
                CpuModel::SkylakeServer
                | CpuModel::SkylakeServerIbrs
                | CpuModel::SkylakeServerNoTsxIbrs => p.signature == 0x0005_0654 && p.brand@
                    == "Intel Xeon Processor (Skylake)"@,
                CpuModel::CascadelakeServer | CpuModel::CascadelakeServerNoTsx => p.signature
                    == 0x0005_0657 && p.brand@ == "Intel Xeon Processor (Cascade Lake)"@,
                CpuModel::IcelakeServer | CpuModel::IcelakeServerNoTsx => p.signature
                    == 0x0006_06a6 && p.brand@ == "Intel Xeon Processor (Ice Lake)"@,
                CpuModel::Epyc => p.signature == 0x0080_0f12 && p.brand@ == "AMD EPYC Processor"@,
                CpuModel::EpycRome => p.signature == 0x0083_0f10 && p.brand@
                    == "AMD EPYC Rome Processor"@,
                CpuModel::EpycMilan => p.signature == 0x00a0_0f11 && p.brand@
                    == "AMD EPYC Milan Processor"@,
            }
        }),
{
}

/// Two models have the same signature exactly where they have the same brand, so a
/// guest of one microarchitecture never takes its CPU for one of another.
pub proof fn law_signatures_tell_brands_apart(
    a: CpuModel,
    a_nested: bool,
    b: CpuModel,
    b_nested: bool,
)
    ensures
        profile::profile_of(a, a_nested).signature == profile::profile_of(b, b_nested).signature
            <==> profile::profile_of(a, a_nested).brand@ == profile::profile_of(b, b_nested).brand@,
{
    reveal_strlit("Intel Xeon Processor (Skylake)");
    reveal_strlit("Intel Xeon Processor (Cascade Lake)");
    reveal_strlit("Intel Xeon Processor (Ice Lake)");
    reveal_strlit("AMD EPYC Processor");
    reveal_strlit("AMD EPYC Rome Processor");
    reveal_strlit("AMD EPYC Milan Processor");
    assert("Intel Xeon Processor (Skylake)"@.len() == 30);
    assert("Intel Xeon Processor (Cascade Lake)"@.len() == 35);
    assert("Intel Xeon Processor (Ice Lake)"@.len() == 31);
    assert("AMD EPYC Processor"@.len() == 18);
    assert("AMD EPYC Rome Processor"@.len() == 23);
    assert("AMD EPYC Milan Processor"@.len() == 24);
}

/// The leaf 0x1 features of each model. A nested guest of an Intel model has VMX
/// (`ecx` bit 5) besides.
pub proof fn law_leaf_1_of_each_model(model: CpuModel, nested: bool)
    ensures
        profile::LEAF_1_EDX == 0x078b_fbff,
        profile::profile_of(model, nested).leaf_1_ecx == match model {
            CpuModel::Epyc | CpuModel::EpycRome => 0xf6f8_3203u32,
            CpuModel::EpycMilan => 0xf6fa_3203u32,
            _ => if nested {
                0xf7fa_3223u32
            } else {
                0xf7fa_3203u32
            },
        },
{
    assert(profile::LEAF_1_EDX == 0x078b_fbffu32) by (bit_vector);
    assert(profile::INTEL_LEAF_1_ECX | profile::LEAF_1_ECX_VMX == 0xf7fa_3223u32
        && profile::INTEL_LEAF_1_ECX | 0u32 == 0xf7fa_3203u32) by (bit_vector);
    assert(profile::AMD_LEAF_1_ECX | profile::LEAF_1_ECX_PCID == 0xf6fa_3203u32
        && profile::AMD_LEAF_1_ECX | 0u32 == 0xf6f8_3203u32) by (bit_vector);
}

/// The leaf 0x7 features of each model.
pub proof fn law_leaf_7_of_each_model(model: CpuModel, nested: bool)
    ensures
        ({
            let p = profile::profile_of(model, nested);
            &&& p.leaf_7_ebx == match model {
                CpuModel::SkylakeServer | CpuModel::SkylakeServerIbrs => 0xd11f_0fb9u32,
                CpuModel::SkylakeServerNoTsxIbrs => 0xd11f_07a9u32,
                CpuModel::CascadelakeServer | CpuModel::IcelakeServer => 0xd19f_0fb9u32,
                CpuModel::CascadelakeServerNoTsx | CpuModel::IcelakeServerNoTsx => 0xd19f_07a9u32,
                CpuModel::Epyc => 0x209c_01a9u32,
                CpuModel::EpycRome => 0x219c_01a9u32,
                CpuModel::EpycMilan => 0x219c_07a9u32,
            }
            &&& p.leaf_7_ecx == match model {
                CpuModel::CascadelakeServer | CpuModel::CascadelakeServerNoTsx => 0x0000_0800u32,
                CpuModel::IcelakeServer | CpuModel::IcelakeServerNoTsx => 0x0001_5f4eu32,
                CpuModel::EpycRome => 0x0040_0004u32,
                CpuModel::EpycMilan => 0x0040_000cu32,
                _ => 0u32,
            }
            &&& p.leaf_7_edx == match model {
                CpuModel::SkylakeServerIbrs
                | CpuModel::SkylakeServerNoTsxIbrs => 0x0400_0000u32,
                CpuModel::CascadelakeServer
                | CpuModel::CascadelakeServerNoTsx
                | CpuModel::IcelakeServer
                | CpuModel::IcelakeServerNoTsx => 0x8400_0000u32,
                CpuModel::EpycMilan => 0x0000_0010u32,
                _ => 0u32,
            }
        }),
{
    assert(profile::SKYLAKE_LEAF_7_EBX == 0xd11f_0fb9u32 && profile::SKYLAKE_LEAF_7_EBX
        & !profile::TSX == 0xd11f_07a9u32) by (bit_vector);
    assert(profile::CASCADELAKE_LEAF_7_EBX == 0xd19f_0fb9u32 && profile::CASCADELAKE_LEAF_7_EBX
        & !profile::TSX == 0xd19f_07a9u32) by (bit_vector);
    assert(profile::ICELAKE_LEAF_7_EBX == 0xd19f_0fb9u32 && profile::ICELAKE_LEAF_7_EBX
        & !profile::TSX == 0xd19f_07a9u32) by (bit_vector);
    assert(profile::EPYC_LEAF_7_EBX == 0x209c_01a9u32 && profile::ROME_LEAF_7_EBX
        == 0x219c_01a9u32 && profile::MILAN_LEAF_7_EBX == 0x219c_07a9u32) by (bit_vector);
    assert(profile::CASCADELAKE_LEAF_7_ECX == 0x0000_0800u32 && profile::ICELAKE_LEAF_7_ECX
        == 0x0001_5f4eu32 && profile::ROME_LEAF_7_ECX == 0x0040_0004u32
        && profile::MILAN_LEAF_7_ECX == 0x0040_000cu32) by (bit_vector);
    assert(profile::LEAF_7_EDX_IBRS == 0x0400_0000u32 && profile::LEAF_7_EDX_IBRS_SSBD
        == 0x8400_0000u32 && profile::MILAN_LEAF_7_EDX == 0x0000_0010u32) by (bit_vector);
}

/// The extended features of each model. A nested guest of an AMD model has SVM (leaf
/// 0x80000001 `ecx` bit 2) besides, and from EPYC Rome on SVM's own features.
pub proof fn law_extended_leaves_of_each_model(model: CpuModel, nested: bool)
    ensures
        ({
            let p = profile::profile_of(model, nested);
            &&& p.extended_1_ecx == match model {
                CpuModel::Epyc => if nested {
                    0x0000_03f5u32
                } else {
                    0x0000_03f1u32
                },
                CpuModel::EpycRome | CpuModel::EpycMilan => if nested {
                    0x0080_03f5u32
                } else {
                    0x0080_03f1u32
                },
                _ => 0x0000_0121u32,
            }
            &&& p.extended_1_edx == match model {
                CpuModel::Epyc | CpuModel::EpycRome | CpuModel::EpycMilan => 0x2fd3_fbffu32,
                _ => 0x2c10_0800u32,
            }
            &&& p.extended_8_ebx == match model {
                CpuModel::IcelakeServer | CpuModel::IcelakeServerNoTsx => 0x0000_0200u32,
                CpuModel::EpycRome => 0x0000_9205u32,
                CpuModel::EpycMilan => 0x0100_d205u32,
                _ => 0u32,
            }
            &&& p.extended_a_edx == match model {
                CpuModel::EpycRome => if nested {
                    0x0000_0009u32
                } else {
                    0u32
                },
                CpuModel::EpycMilan => if nested {
                    0x1000_0009u32
                } else {
                    0u32
                },
                _ => 0u32,
            }
        }),
{
    assert(profile::INTEL_EXTENDED_ECX == 0x0000_0121u32 && profile::INTEL_EXTENDED_EDX
        == 0x2c10_0800u32 && profile::AMD_EXTENDED_EDX == 0x2fd3_fbffu32) by (bit_vector);
    assert(profile::AMD_EXTENDED_ECX | profile::EXTENDED_ECX_SVM == 0x0000_03f5u32
        && profile::AMD_EXTENDED_ECX | 0u32 == 0x0000_03f1u32 && (profile::AMD_EXTENDED_ECX
        | profile::EXTENDED_ECX_SVM) | profile::EXTENDED_ECX_PERFCTR_CORE == 0x0080_03f5u32 && (
    profile::AMD_EXTENDED_ECX | 0u32) | profile::EXTENDED_ECX_PERFCTR_CORE == 0x0080_03f1u32)
        by (bit_vector);
    assert(profile::ICELAKE_EXTENDED_8_EBX == 0x0000_0200u32 && profile::ROME_EXTENDED_8_EBX
        == 0x0000_9205u32 && profile::MILAN_EXTENDED_8_EBX == 0x0100_d205u32) by (bit_vector);
    assert(profile::ROME_EXTENDED_A_EDX == 0x0000_0009u32 && profile::MILAN_EXTENDED_A_EDX
        == 0x1000_0009u32) by (bit_vector);
}

/// The state components and XSAVE features of each model.
pub proof fn law_xsave_of_each_model(model: CpuModel, nested: bool)
    ensures
        ({
            let p = profile::profile_of(model, nested);
            &&& p.xcr0 == match model {
                CpuModel::IcelakeServer | CpuModel::IcelakeServerNoTsx => 0x2e7u32,
                CpuModel::Epyc | CpuModel::EpycRome => 0x7u32,
                CpuModel::EpycMilan => 0x207u32,
                _ => 0xe7u32,
            }
            &&& p.xsave_1_eax == if model is EpycMilan {
                0xfu32
            } else {
                0x7u32
            }
        }),
{
    assert(profile::AVX512_XCR0 == 0xe7u32 && profile::ICELAKE_XCR0 == 0x2e7u32
        && profile::AVX_XCR0 == 0x7u32 && profile::MILAN_XCR0 == 0x207u32) by (bit_vector);
    assert(profile::XSAVE_1_EAX == 0x7u32 && profile::MILAN_XSAVE_1_EAX == 0xfu32)
        by (bit_vector);
}

/// The names of models and vendors.
pub proof fn law_names(model: CpuModel, vendor: CpuVendor)
    ensures
        model.text() == match model {
            CpuModel::SkylakeServer => "Skylake-Server"@,
            CpuModel::SkylakeServerIbrs => "Skylake-Server-IBRS"@,
            CpuModel::SkylakeServerNoTsxIbrs => "Skylake-Server-noTSX-IBRS"@,
            CpuModel::CascadelakeServer => "Cascadelake-Server"@,
            CpuModel::CascadelakeServerNoTsx => "Cascadelake-Server-noTSX"@,
            CpuModel::IcelakeServer => "Icelake-Server"@,
            CpuModel::IcelakeServerNoTsx => "Icelake-Server-noTSX"@,
            CpuModel::Epyc => "EPYC"@,
            CpuModel::EpycRome => "EPYC-Rome"@,
            CpuModel::EpycMilan => "EPYC-Milan"@,
        },
        vendor.text() == match vendor {
            CpuVendor::Unknown => "Unknown"@,
            CpuVendor::Intel => "Intel"@,
            CpuVendor::AMD => "AMD"@,
        },
{
}

/// An error names the model that was refused, and its reason holds the numbers of
/// the refusal in hexadecimal, in this wording.
pub proof fn law_reason_of_each_refusal(
    model: CpuModel,
    name: String,
    reason: String,
    function: u32,
    index: u32,
    host: u32,
    value: u32,
    model_vendor: CpuVendor,
    host_vendor: CpuVendor,
)
    ensures
        ({
            let e = Error::CpuModelNotSupported { model: name, reason };
            let leaf = "CPUID leaf 0x"@ + text::hex(function as nat);
            let subleaf = leaf + ", subleaf 0x"@ + text::hex(index as nat);
            &&& e.reports(model, Refusal::Vendor { model_vendor, host_vendor }) <==> name@
                == model.text() && reason@ == "the model requires a "@ + model_vendor.text()
                + " host, but this host is "@ + host_vendor.text()
            &&& e.reports(model, Refusal::NoLeaf { function }) <==> name@ == model.text()
                && reason@ == leaf + " is unavailable"@
            &&& e.reports(model, Refusal::NoSubleaf { function, index }) <==> name@ == model.text()
                && reason@ == subleaf + " is unavailable"@
            &&& e.reports(model, Refusal::MaxLeaf { function, host, required: value }) <==> name@
                == model.text() && reason@ == leaf + " reports maximum 0x"@ + text::hex(host as nat)
                + ", but the model requires 0x"@ + text::hex(value as nat)
            &&& e.reports(model, Refusal::MissingBits { function, index, missing: value }) <==> name@
                == model.text() && reason@ == subleaf + " lacks required bits 0x"@
                + text::hex_padded(value as nat, 8)
        }),
{
}

} // verus!
