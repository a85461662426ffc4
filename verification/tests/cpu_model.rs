use vmm_models::cpu_model::apply::{apply_cpu_model, apply_register, set_max_leaf, set_signature};
use vmm_models::cpu_model::brand::set_brand_string;
use vmm_models::cpu_model::error::{Error, Refusal};
use vmm_models::cpu_model::profile::{
    CpuModel, CpuModelProfile, CpuVendor, INTEL_LEAF_1_ECX, LEAF_1_EDX,
};
use vmm_models::leaves::{
    find_leaf, CpuIdEntry, Register, CPUID_FLAG_EXACT_EAX, CPUID_FLAG_EXACT_EBX,
    CPUID_FLAG_EXACT_ECX, CPUID_FLAG_EXACT_EDX, CPUID_FLAG_VALID_INDEX,
};
use vmm_models::text::{hex_text, hex_text_padded};

const MODELS: [(CpuModel, CpuVendor, &str); 10] = [
    (CpuModel::SkylakeServer, CpuVendor::Intel, "Skylake-Server"),
    (CpuModel::SkylakeServerIbrs, CpuVendor::Intel, "Skylake-Server-IBRS"),
    (CpuModel::SkylakeServerNoTsxIbrs, CpuVendor::Intel, "Skylake-Server-noTSX-IBRS"),
    (CpuModel::CascadelakeServer, CpuVendor::Intel, "Cascadelake-Server"),
    (CpuModel::CascadelakeServerNoTsx, CpuVendor::Intel, "Cascadelake-Server-noTSX"),
    (CpuModel::IcelakeServer, CpuVendor::Intel, "Icelake-Server"),
    (CpuModel::IcelakeServerNoTsx, CpuVendor::Intel, "Icelake-Server-noTSX"),
    (CpuModel::Epyc, CpuVendor::AMD, "EPYC"),
    (CpuModel::EpycRome, CpuVendor::AMD, "EPYC-Rome"),
    (CpuModel::EpycMilan, CpuVendor::AMD, "EPYC-Milan"),
];

fn full_cpuid() -> Vec<CpuIdEntry> {
    [
        (0, 0),
        (1, 0),
        (6, 0),
        (7, 0),
        (0xd, 0),
        (0xd, 1),
        (0x8000_0000, 0),
        (0x8000_0001, 0),
        (0x8000_0007, 0),
        (0x8000_0008, 0),
        (0x8000_000a, 0),
    ]
    .into_iter()
    .map(|(function, index)| CpuIdEntry {
        function,
        index,
        flags: if index == 0 {
            0
        } else {
            CPUID_FLAG_VALID_INDEX
        },
        eax: u32::MAX,
        ebx: u32::MAX,
        ecx: u32::MAX,
        edx: u32::MAX,
    })
    .collect()
}

fn leaf(cpuid: &[CpuIdEntry], function: u32, index: u32) -> CpuIdEntry {
    *cpuid
        .iter()
        .find(|entry| entry.function == function && entry.index == index)
        .unwrap()
}

fn parts(e: Error) -> (String, String) {
    match e {
        Error::CpuModelNotSupported { model, reason } => (model, reason),
    }
}

#[test]
fn model_masks_newer_cpu_features() {
    let mut cpuid = full_cpuid();
    apply_cpu_model(&mut cpuid, CpuModel::SkylakeServer, CpuVendor::Intel, false).unwrap();

    let leaf_1 = cpuid.iter().find(|entry| entry.function == 1).unwrap();
    assert_eq!(leaf_1.eax, 0x0005_0654);
    assert_eq!(leaf_1.ebx, 8 << 8);
    assert_eq!(leaf_1.ecx, INTEL_LEAF_1_ECX);
    assert_ne!(leaf_1.flags & CPUID_FLAG_EXACT_ECX, 0);

    let leaf_7 = cpuid.iter().find(|entry| entry.function == 7).unwrap();
    assert_eq!(leaf_7.ecx, 0);
    assert_eq!(leaf_7.edx, 0);
}

#[test]
fn model_rejects_missing_feature() {
    let mut cpuid = full_cpuid();
    cpuid
        .iter_mut()
        .find(|entry| entry.function == 7)
        .unwrap()
        .ebx &= !(1 << 5);

    assert!(matches!(
        apply_cpu_model(&mut cpuid, CpuModel::SkylakeServer, CpuVendor::Intel, false,),
        Err(Error::CpuModelNotSupported { .. })
    ));
}

#[test]
fn model_rejects_wrong_vendor() {
    let mut cpuid = full_cpuid();
    assert!(matches!(
        apply_cpu_model(&mut cpuid, CpuModel::EpycMilan, CpuVendor::Intel, false,),
        Err(Error::CpuModelNotSupported { .. })
    ));
}

#[test]
fn no_tsx_model_clears_tsx_features() {
    let mut cpuid = full_cpuid();
    apply_cpu_model(
        &mut cpuid,
        CpuModel::SkylakeServerNoTsxIbrs,
        CpuVendor::Intel,
        false,
    )
    .unwrap();

    let leaf_7 = cpuid.iter().find(|entry| entry.function == 7).unwrap();
    assert_eq!(leaf_7.ebx & ((1 << 4) | (1 << 11)), 0);
    assert_ne!(leaf_7.edx & (1 << 26), 0);
}

#[test]
fn profiles_hold_the_documented_values() {
    let skylake = CpuModelProfile::for_model(CpuModel::SkylakeServer, false);
    assert_eq!(skylake.signature, 0x0005_0654);
    assert_eq!(skylake.leaf_1_ecx, 0xf7fa_3203);
    assert_eq!(skylake.leaf_7_ebx, 0xd11f_0fb9);
    assert_eq!(skylake.xcr0, 0xe7);
    assert_eq!(skylake.extended_1_ecx, 0x121);
    assert_eq!(skylake.extended_1_edx, 0x2c10_0800);
    assert_eq!(LEAF_1_EDX, 0x078b_fbff);

    let icelake = CpuModelProfile::for_model(CpuModel::IcelakeServer, false);
    assert_eq!(icelake.brand, "Intel Xeon Processor (Ice Lake)");
    assert_eq!(icelake.leaf_7_ecx, 0x0001_5f4e);
    assert_eq!(icelake.leaf_7_edx, 0x8400_0000);
    assert_eq!(icelake.extended_8_ebx, 0x200);
    assert_eq!(icelake.xcr0, 0x2e7);

    let cascadelake = CpuModelProfile::for_model(CpuModel::CascadelakeServerNoTsx, false);
    assert_eq!(cascadelake.signature, 0x0005_0657);
    assert_eq!(cascadelake.leaf_7_ebx, 0xd19f_07a9);
    assert_eq!(cascadelake.leaf_7_ecx, 0x800);

    let epyc = CpuModelProfile::for_model(CpuModel::Epyc, false);
    assert_eq!(epyc.vendor, CpuVendor::AMD);
    assert_eq!(epyc.max_extended_leaf, 0x8000_001e);
    assert_eq!(epyc.leaf_1_ecx, 0xf6f8_3203);
    assert_eq!(epyc.leaf_7_ebx, 0x209c_01a9);
    assert_eq!(epyc.extended_1_ecx, 0x3f1);
    assert_eq!(epyc.extended_1_edx, 0x2fd3_fbff);
    assert_eq!(epyc.xcr0, 0x7);

    let milan = CpuModelProfile::for_model(CpuModel::EpycMilan, true);
    assert_eq!(milan.signature, 0x00a0_0f11);
    assert_eq!(milan.leaf_1_ecx, 0xf6fa_3203);
    assert_eq!(milan.leaf_7_ebx, 0x219c_07a9);
    assert_eq!(milan.leaf_7_ecx, 0x0040_000c);
    assert_eq!(milan.leaf_7_edx, 0x10);
    assert_eq!(milan.extended_1_ecx, 0x0080_03f5);
    assert_eq!(milan.extended_8_ebx, 0x0100_d205);
    assert_eq!(milan.extended_a_edx, 0x1000_0009);
    assert_eq!(milan.xcr0, 0x207);
    assert_eq!(milan.xsave_1_eax, 0xf);
}

#[test]
fn nesting_adds_virtualization_features() {
    let intel = CpuModelProfile::for_model(CpuModel::SkylakeServer, true);
    assert_eq!(intel.leaf_1_ecx, INTEL_LEAF_1_ECX | 1 << 5);
    let plain = CpuModelProfile::for_model(CpuModel::EpycRome, false);
    let nested = CpuModelProfile::for_model(CpuModel::EpycRome, true);
    assert_eq!(nested.leaf_1_ecx, plain.leaf_1_ecx);
    assert_eq!(nested.extended_1_ecx, plain.extended_1_ecx | 1 << 2);
    assert_eq!(plain.extended_a_edx, 0);
    assert_eq!(nested.extended_a_edx, 0x9);
}

#[test]
fn variants_differ_from_their_base_in_one_register() {
    for (base, variant) in [
        (CpuModel::SkylakeServerIbrs, CpuModel::SkylakeServerNoTsxIbrs),
        (CpuModel::CascadelakeServer, CpuModel::CascadelakeServerNoTsx),
        (CpuModel::IcelakeServer, CpuModel::IcelakeServerNoTsx),
    ] {
        let b = CpuModelProfile::for_model(base, false);
        let v = CpuModelProfile::for_model(variant, false);
        assert_eq!(v.leaf_7_ebx, b.leaf_7_ebx & !0x810);
        assert_eq!(v.leaf_7_edx, b.leaf_7_edx);
        assert_eq!(v.brand, b.brand);
        assert_eq!(v.signature, b.signature);
    }
    let ibrs = CpuModelProfile::for_model(CpuModel::SkylakeServerIbrs, false);
    assert_eq!(ibrs.leaf_7_edx, 1 << 26);
    assert_eq!(ibrs.leaf_7_ebx, 0xd11f_0fb9);
}

#[test]
fn every_model_runs_on_a_full_host() {
    for (model, vendor, name) in MODELS {
        let mut cpuid = full_cpuid();
        apply_cpu_model(&mut cpuid, model, vendor, true).unwrap();
        let p = CpuModelProfile::for_model(model, true);
        assert_eq!(model.to_string(), name);
        assert_eq!(leaf(&cpuid, 0, 0).eax, 0xd);
        assert_eq!(leaf(&cpuid, 0x8000_0000, 0).eax, p.max_extended_leaf);
        assert_eq!(leaf(&cpuid, 1, 0).eax, p.signature);
        assert_eq!(leaf(&cpuid, 1, 0).edx, LEAF_1_EDX);
        assert_eq!(leaf(&cpuid, 6, 0).eax, 4);
        assert_eq!(leaf(&cpuid, 6, 0).ebx, u32::MAX);
        assert_eq!(leaf(&cpuid, 7, 0).ebx, p.leaf_7_ebx);
        assert_eq!(leaf(&cpuid, 0xd, 0).eax, p.xcr0);
        assert_eq!(leaf(&cpuid, 0xd, 0).ebx, u32::MAX);
        assert_eq!(leaf(&cpuid, 0xd, 0).edx, 0);
        assert_eq!(leaf(&cpuid, 0xd, 1).eax, p.xsave_1_eax);
        assert_eq!(
            leaf(&cpuid, 0xd, 1).flags,
            CPUID_FLAG_VALID_INDEX
                | CPUID_FLAG_EXACT_EAX
                | CPUID_FLAG_EXACT_ECX
                | CPUID_FLAG_EXACT_EDX
        );
        assert_eq!(leaf(&cpuid, 0x8000_0001, 0).edx, p.extended_1_edx);
        assert_eq!(leaf(&cpuid, 0x8000_0008, 0).ebx, p.extended_8_ebx);
        let a = leaf(&cpuid, 0x8000_000a, 0);
        if vendor == CpuVendor::AMD {
            assert_eq!(a.edx, p.extended_a_edx);
        } else {
            assert_eq!(a.edx, u32::MAX);
            assert_eq!(a.flags, 0);
        }
    }
}

#[test]
fn model_looks_the_same_on_different_hosts() {
    let mut rich = full_cpuid();
    let mut lean = full_cpuid();
    apply_cpu_model(&mut lean, CpuModel::EpycRome, CpuVendor::AMD, false).unwrap();
    for entry in lean.iter_mut() {
        entry.flags = 0;
    }
    apply_cpu_model(&mut lean, CpuModel::EpycRome, CpuVendor::AMD, false).unwrap();
    apply_cpu_model(&mut rich, CpuModel::EpycRome, CpuVendor::AMD, false).unwrap();
    for (function, index) in [(1, 0), (7, 0), (0x8000_0002, 0), (0x8000_0004, 0)] {
        let r = leaf(&rich, function, index);
        let l = leaf(&lean, function, index);
        assert_eq!((r.eax, r.ebx, r.ecx, r.edx), (l.eax, l.ebx, l.ecx, l.edx));
    }
}

#[test]
fn applying_a_model_twice_is_applying_it_once() {
    for (model, vendor, _) in MODELS {
        let mut once = full_cpuid();
        apply_cpu_model(&mut once, model, vendor, false).unwrap();
        let mut twice = once.clone();
        apply_cpu_model(&mut twice, model, vendor, false).unwrap();
        assert_eq!(once, twice);
    }
}

#[test]
fn only_the_first_entry_of_a_leaf_changes() {
    let mut cpuid = full_cpuid();
    cpuid.push(cpuid[1]);
    let unrelated = CpuIdEntry { function: 4, index: 2, ..CpuIdEntry::default() };
    cpuid.insert(0, unrelated);
    apply_cpu_model(&mut cpuid, CpuModel::SkylakeServer, CpuVendor::Intel, false).unwrap();
    assert_eq!(cpuid[0], unrelated);
    assert_eq!(find_leaf(&cpuid, 1, 0), Some(2));
    assert_eq!(cpuid[2].eax, 0x0005_0654);
    assert_eq!(cpuid[12].function, 1);
    assert_eq!(cpuid[12].eax, u32::MAX);
}

#[test]
fn wrong_vendor_is_named_and_changes_nothing() {
    let mut cpuid = full_cpuid();
    let e = apply_cpu_model(&mut cpuid, CpuModel::EpycMilan, CpuVendor::Intel, false).unwrap_err();
    assert_eq!(
        parts(e),
        (
            "EPYC-Milan".to_string(),
            "the model requires a AMD host, but this host is Intel".to_string()
        )
    );
    assert_eq!(cpuid, full_cpuid());
    let e = apply_cpu_model(&mut cpuid, CpuModel::SkylakeServer, CpuVendor::Unknown, false);
    assert_eq!(
        parts(e.unwrap_err()).1,
        "the model requires a Intel host, but this host is Unknown"
    );
}

#[test]
fn missing_bits_are_named_and_earlier_rules_stay() {
    let mut cpuid = full_cpuid();
    cpuid[3].ebx &= !(1 << 5 | 1 << 31);
    let e = apply_cpu_model(&mut cpuid, CpuModel::SkylakeServer, CpuVendor::Intel, false);
    assert_eq!(
        parts(e.unwrap_err()),
        (
            "Skylake-Server".to_string(),
            "CPUID leaf 0x7, subleaf 0x0 lacks required bits 0x80000020".to_string()
        )
    );
    assert_eq!(leaf(&cpuid, 1, 0).eax, 0x0005_0654);
    assert_eq!(leaf(&cpuid, 7, 0).eax, 0);
    assert_eq!(leaf(&cpuid, 7, 0).ecx, u32::MAX);
    assert_eq!(cpuid.len(), full_cpuid().len());
}

#[test]
fn missing_leaves_are_named() {
    let cases: [(u32, u32, &str); 5] = [
        (0, 0, "CPUID leaf 0x0 is unavailable"),
        (0x8000_0000, 0, "CPUID leaf 0x80000000 is unavailable"),
        (1, 0, "CPUID leaf 0x1 is unavailable"),
        (0xd, 1, "CPUID leaf 0xd, subleaf 0x1 is unavailable"),
        (0x8000_000a, 0, "CPUID leaf 0x8000000a, subleaf 0x0 is unavailable"),
    ];
    for (function, index, reason) in cases {
        let mut cpuid = full_cpuid();
        cpuid.retain(|e| !(e.function == function && e.index == index));
        let e = apply_cpu_model(&mut cpuid, CpuModel::Epyc, CpuVendor::AMD, false);
        assert_eq!(parts(e.unwrap_err()), ("EPYC".to_string(), reason.to_string()));
    }
    let mut cpuid = full_cpuid();
    cpuid.retain(|e| e.function != 0x8000_000a);
    assert!(apply_cpu_model(&mut cpuid, CpuModel::IcelakeServer, CpuVendor::Intel, true).is_ok());
}

#[test]
fn low_maximum_leaf_is_named() {
    let mut cpuid = full_cpuid();
    cpuid[6].eax = 0x8000_0008;
    let e = apply_cpu_model(&mut cpuid, CpuModel::Epyc, CpuVendor::AMD, false);
    assert_eq!(
        parts(e.unwrap_err()).1,
        "CPUID leaf 0x80000000 reports maximum 0x80000008, but the model requires 0x8000001e"
    );
    assert_eq!(leaf(&cpuid, 0, 0).eax, 0xd);
}

#[test]
fn single_rules_report_and_enforce() {
    let mut cpuid = full_cpuid();
    cpuid[3].ecx = 0b1110;
    let model = CpuModel::EpycRome;
    assert!(apply_register(&mut cpuid, model, 7, 0, Register::Ecx, 0b0110).is_ok());
    assert_eq!(cpuid[3].ecx, 0b0110);
    assert_eq!(cpuid[3].flags, CPUID_FLAG_EXACT_ECX);
    let e = apply_register(&mut cpuid, model, 7, 0, Register::Ecx, 0b1111).unwrap_err();
    assert_eq!(
        parts(e).1,
        "CPUID leaf 0x7, subleaf 0x0 lacks required bits 0x00000009"
    );
    assert!(set_signature(&mut cpuid, model, 77).is_ok());
    assert_eq!(cpuid[1].eax, 77);
    assert!(set_max_leaf(&mut cpuid, model, 0, 5).is_ok());
    assert_eq!(cpuid[0].eax, 5);
    assert!(set_max_leaf(&mut cpuid, model, 0, 6).is_err());
}

#[test]
fn brand_string_is_spelled_out_and_padded() {
    let mut cpuid = full_cpuid();
    cpuid.insert(3, CpuIdEntry { function: 0x8000_0003, index: 7, ..CpuIdEntry::default() });
    let before = full_cpuid();
    set_brand_string(&mut cpuid, "AMD EPYC Rome Processor");
    assert_eq!(&cpuid[..before.len()], &before[..]);
    assert_eq!(cpuid.len(), before.len() + 3);
    let mut text = Vec::new();
    for (n, e) in cpuid[before.len()..].iter().enumerate() {
        assert_eq!(e.function, 0x8000_0002 + n as u32);
        assert_eq!(e.index, 0);
        assert_eq!(
            e.flags,
            CPUID_FLAG_EXACT_EAX
                | CPUID_FLAG_EXACT_EBX
                | CPUID_FLAG_EXACT_ECX
                | CPUID_FLAG_EXACT_EDX
        );
        for word in [e.eax, e.ebx, e.ecx, e.edx] {
            text.extend_from_slice(&word.to_le_bytes());
        }
    }
    let expected = format!("{:<48}", "AMD EPYC Rome Processor");
    assert_eq!(String::from_utf8(text).unwrap(), expected);
    assert_eq!(cpuid[before.len()].eax, 0x2044_4d41);
}

#[test]
fn brand_string_can_fill_its_leaves() {
    let mut cpuid = Vec::new();
    let brand = "0123456789abcdef0123456789abcdef0123456789abcdef";
    set_brand_string(&mut cpuid, brand);
    assert_eq!(cpuid[2].edx, u32::from_le_bytes(*b"cdef"));
    set_brand_string(&mut cpuid, "");
    assert_eq!(cpuid.len(), 3);
    assert_eq!(cpuid[0].eax, 0x2020_2020);
}

#[test]
fn last_brand_string_stays() {
    let mut once = full_cpuid();
    set_brand_string(&mut once, "AMD EPYC Processor");
    let mut twice = full_cpuid();
    set_brand_string(&mut twice, "Intel Xeon Processor (Ice Lake)");
    set_brand_string(&mut twice, "AMD EPYC Processor");
    assert_eq!(once, twice);
}

#[test]
fn refusals_in_words() {
    assert_eq!(
        Refusal::NoSubleaf { function: 0x10, index: 0xab }.to_string(),
        "CPUID leaf 0x10, subleaf 0xab is unavailable"
    );
    let e = Error::new(CpuModel::Epyc, Refusal::NoLeaf { function: 2 });
    assert_eq!(
        parts(e),
        ("EPYC".to_string(), "CPUID leaf 0x2 is unavailable".to_string())
    );
}

#[test]
fn numbers_in_hexadecimal() {
    for n in [0, 9, 10, 15, 16, 0xff, 0x8000_001e, u32::MAX] {
        assert_eq!(hex_text(n), format!("{n:x}"));
        assert_eq!(hex_text_padded(n, 8), format!("{n:08x}"));
    }
    assert_eq!(hex_text_padded(0x1234, 2), "34");
    assert_eq!(hex_text_padded(5, 0), "");
}

#[test]
fn vendors_have_names() {
    assert_eq!(CpuVendor::Unknown.name(), "Unknown");
    assert_eq!(CpuVendor::Intel.name(), "Intel");
    assert_eq!(CpuVendor::AMD.name(), "AMD");
}

#[test]
fn leaves_stay_in_order() {
    let order = |cpuid: &[CpuIdEntry]| -> Vec<(u32, u32)> {
        cpuid.iter().map(|entry| (entry.function, entry.index)).collect()
    };
    let host = full_cpuid();

    let mut refused = host.clone();
    refused[9].ebx = 0;
    assert!(apply_cpu_model(&mut refused, CpuModel::EpycRome, CpuVendor::AMD, false).is_err());
    assert_eq!(order(&refused), order(&host));

    let mut accepted = host.clone();
    apply_cpu_model(&mut accepted, CpuModel::EpycRome, CpuVendor::AMD, false).unwrap();
    assert_eq!(order(&accepted[..host.len()]), order(&host));
    assert_eq!(
        order(&accepted[host.len()..]),
        vec![(0x8000_0002, 0), (0x8000_0003, 0), (0x8000_0004, 0)]
    );
}
