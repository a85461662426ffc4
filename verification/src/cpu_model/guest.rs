//! Which hosts provide a model, and what the guest then reads, leaf by leaf.
use super::apply;
use super::apply::Rule;
use super::brand;
use super::error::{Error, Refusal};
use super::laws;
use super::profile;
use super::profile::{CpuModel, CpuModelProfile, CpuVendor};
use crate::le;
use crate::leaves;
use crate::leaves::{
    CpuIdEntry, Register, CPUID_FLAG_EXACT_EAX, CPUID_FLAG_EXACT_EBX, CPUID_FLAG_EXACT_ECX,
    CPUID_FLAG_EXACT_EDX,
};
use vstd::prelude::*;

verus! {

/// A table meets a rule.
#[verifier::opaque]
pub open spec fn met(rule: Rule, table: Seq<CpuIdEntry>) -> bool {
    rule.refusal(table) is None
}

/// Meeting every rule of a profile is meeting each of them.
proof fn lemma_rules_listed(table: Seq<CpuIdEntry>, p: CpuModelProfile)
    ensures
        (forall|k: int|
            0 <= k < apply::rules_of(p).len() ==> met(#[trigger] apply::rules_of(p)[k], table))
            <==> {
            &&& met(Rule::MaxLeaf { function: 0, value: 0xd }, table)
            &&& met(Rule::MaxLeaf { function: 0x8000_0000, value: p.max_extended_leaf }, table)
            &&& met(Rule::Signature { value: p.signature }, table)
            &&& met(apply::features(1, 0, Register::Ebx, 0x800), table)
            &&& met(apply::features(1, 0, Register::Ecx, p.leaf_1_ecx), table)
            &&& met(apply::features(1, 0, Register::Edx, 0x078b_fbff), table)
            &&& met(apply::features(6, 0, Register::Eax, 0x4), table)
            &&& met(apply::features(7, 0, Register::Eax, 0), table)
            &&& met(apply::features(7, 0, Register::Ebx, p.leaf_7_ebx), table)
            &&& met(apply::features(7, 0, Register::Ecx, p.leaf_7_ecx), table)
            &&& met(apply::features(7, 0, Register::Edx, p.leaf_7_edx), table)
            &&& met(apply::features(0xd, 0, Register::Eax, p.xcr0), table)
            &&& met(apply::features(0xd, 0, Register::Edx, 0), table)
            &&& met(apply::features(0xd, 1, Register::Eax, p.xsave_1_eax), table)
            &&& met(apply::features(0xd, 1, Register::Ecx, 0), table)
            &&& met(apply::features(0xd, 1, Register::Edx, 0), table)
            &&& met(apply::features(0x8000_0001, 0, Register::Ecx, p.extended_1_ecx), table)
            &&& met(apply::features(0x8000_0001, 0, Register::Edx, p.extended_1_edx), table)
            &&& met(apply::features(0x8000_0007, 0, Register::Edx, 0), table)
            &&& met(apply::features(0x8000_0008, 0, Register::Ebx, p.extended_8_ebx), table)
            &&& p.vendor is AMD ==> met(
                apply::features(0x8000_000a, 0, Register::Edx, p.extended_a_edx),
                table,
            )
        },
{
    let all = apply::rules_of(p);
    super::documented::law_leaf_1_of_each_model(CpuModel::Epyc, false);
    if forall|k: int| 0 <= k < all.len() ==> met(#[trigger] all[k], table) {
        assert(met(all[0], table) && met(all[1], table) && met(all[2], table) && met(
            all[3],
            table,
        ) && met(all[4], table) && met(all[5], table) && met(all[6], table) && met(all[7], table)
            && met(all[8], table) && met(all[9], table) && met(all[10], table) && met(
            all[11],
            table,
        ) && met(all[12], table) && met(all[13], table) && met(all[14], table) && met(
            all[15],
            table,
        ) && met(all[16], table) && met(all[17], table) && met(all[18], table) && met(
            all[19],
            table,
        ));
        if p.vendor is AMD {
            assert(met(all[20], table));
        }
    }
}

/// When a table meets every rule of a profile.
proof fn lemma_rules_met(table: Seq<CpuIdEntry>, p: CpuModelProfile)
    ensures
        (forall|k: int|
            0 <= k < apply::rules_of(p).len() ==> met(#[trigger] apply::rules_of(p)[k], table))
            <==> {
            &&& leaves::lookup(table, 0, 0) matches Some(e) && e.eax >= 0xd
            &&& leaves::lookup(table, 0x8000_0000, 0) matches Some(e) && e.eax
                >= p.max_extended_leaf
            &&& leaves::lookup(table, 1, 0) matches Some(e) && e.ebx & 0x800 == 0x800 && e.ecx
                & p.leaf_1_ecx == p.leaf_1_ecx && e.edx & 0x078b_fbff == 0x078b_fbff
            &&& leaves::lookup(table, 6, 0) matches Some(e) && e.eax & 0x4 == 0x4
            &&& leaves::lookup(table, 7, 0) matches Some(e) && e.ebx & p.leaf_7_ebx
                == p.leaf_7_ebx && e.ecx & p.leaf_7_ecx == p.leaf_7_ecx && e.edx & p.leaf_7_edx
                == p.leaf_7_edx
            &&& leaves::lookup(table, 0xd, 0) matches Some(e) && e.eax & p.xcr0 == p.xcr0
            &&& leaves::lookup(table, 0xd, 1) matches Some(e) && e.eax & p.xsave_1_eax
                == p.xsave_1_eax
            &&& leaves::lookup(table, 0x8000_0001, 0) matches Some(e) && e.ecx
                & p.extended_1_ecx == p.extended_1_ecx && e.edx & p.extended_1_edx
                == p.extended_1_edx
            &&& leaves::lookup(table, 0x8000_0007, 0) is Some
            &&& leaves::lookup(table, 0x8000_0008, 0) matches Some(e) && e.ebx
                & p.extended_8_ebx == p.extended_8_ebx
            &&& p.vendor is AMD ==> (leaves::lookup(table, 0x8000_000a, 0) matches Some(e)
                && e.edx & p.extended_a_edx == p.extended_a_edx)
        },
{
    lemma_rules_listed(table, p);
    assert(forall|a: u32| #[trigger] (a & 0) == 0) by (bit_vector);
    lemma_number_met(table, 0, 0xd);
    lemma_number_met(table, 0x8000_0000, p.max_extended_leaf);
    lemma_number_met(table, 1, p.signature);
    lemma_features_met(table, 1, 0, Register::Ebx, 0x800);
    lemma_features_met(table, 1, 0, Register::Ecx, p.leaf_1_ecx);
    lemma_features_met(table, 1, 0, Register::Edx, 0x078b_fbff);
    lemma_features_met(table, 6, 0, Register::Eax, 0x4);
    lemma_features_met(table, 7, 0, Register::Eax, 0);
    lemma_features_met(table, 7, 0, Register::Ebx, p.leaf_7_ebx);
    lemma_features_met(table, 7, 0, Register::Ecx, p.leaf_7_ecx);
    lemma_features_met(table, 7, 0, Register::Edx, p.leaf_7_edx);
    lemma_features_met(table, 0xd, 0, Register::Eax, p.xcr0);
    lemma_features_met(table, 0xd, 0, Register::Edx, 0);
    lemma_features_met(table, 0xd, 1, Register::Eax, p.xsave_1_eax);
    lemma_features_met(table, 0xd, 1, Register::Ecx, 0);
    lemma_features_met(table, 0xd, 1, Register::Edx, 0);
    lemma_features_met(table, 0x8000_0001, 0, Register::Ecx, p.extended_1_ecx);
    lemma_features_met(table, 0x8000_0001, 0, Register::Edx, p.extended_1_edx);
    lemma_features_met(table, 0x8000_0007, 0, Register::Edx, 0);
    lemma_features_met(table, 0x8000_0008, 0, Register::Ebx, p.extended_8_ebx);
    lemma_features_met(table, 0x8000_000a, 0, Register::Edx, p.extended_a_edx);
}

/// When a table meets a features rule.
proof fn lemma_features_met(
    table: Seq<CpuIdEntry>,
    function: u32,
    index: u32,
    register: Register,
    value: u32,
)
    ensures
        met(apply::features(function, index, register, value), table) <==> (leaves::lookup(
            table,
            function,
            index,
        ) matches Some(e) && e.register(register) & value == value),
{
    reveal(met);
}

/// When a table meets a rule about a number.
proof fn lemma_number_met(table: Seq<CpuIdEntry>, function: u32, value: u32)
    ensures
        met((Rule::MaxLeaf { function, value }), table) <==> (leaves::lookup(table, function, 0)
            matches Some(e) && e.eax >= value),
        met((Rule::Signature { value }), table) <==> leaves::lookup(table, 1, 0) is Some,
{
    reveal(met);
}

/// A host provides a model exactly where it is of the model's vendor, its highest
/// basic leaf is at least 0xd, its highest extended leaf is at least the model's,
/// and it has every leaf that the model speaks of, with every feature bit of the
/// model in it.
pub proof fn law_hosts_that_provide_a_model(
    table: Seq<CpuIdEntry>,
    model: CpuModel,
    host_vendor: CpuVendor,
    nested: bool,
)
    ensures
        ({
            let p = profile::profile_of(model, nested);
            laws::accepted(table, model, host_vendor, nested) <==> {
                &&& host_vendor == p.vendor
                &&& leaves::lookup(table, 0, 0) matches Some(e) && e.eax >= 0xd
                &&& leaves::lookup(table, 0x8000_0000, 0) matches Some(e) && e.eax
                    >= p.max_extended_leaf
                &&& leaves::lookup(table, 1, 0) matches Some(e) && e.ebx & 0x800 == 0x800 && e.ecx
                    & p.leaf_1_ecx == p.leaf_1_ecx && e.edx & 0x078b_fbff == 0x078b_fbff
                &&& leaves::lookup(table, 6, 0) matches Some(e) && e.eax & 0x4 == 0x4
                &&& leaves::lookup(table, 7, 0) matches Some(e) && e.ebx & p.leaf_7_ebx
                    == p.leaf_7_ebx && e.ecx & p.leaf_7_ecx == p.leaf_7_ecx && e.edx & p.leaf_7_edx
                    == p.leaf_7_edx
                &&& leaves::lookup(table, 0xd, 0) matches Some(e) && e.eax & p.xcr0 == p.xcr0
                &&& leaves::lookup(table, 0xd, 1) matches Some(e) && e.eax & p.xsave_1_eax
                    == p.xsave_1_eax
                &&& leaves::lookup(table, 0x8000_0001, 0) matches Some(e) && e.ecx
                    & p.extended_1_ecx == p.extended_1_ecx && e.edx & p.extended_1_edx
                    == p.extended_1_edx
                &&& leaves::lookup(table, 0x8000_0007, 0) is Some
                &&& leaves::lookup(table, 0x8000_0008, 0) matches Some(e) && e.ebx
                    & p.extended_8_ebx == p.extended_8_ebx
                &&& p.vendor is AMD ==> (leaves::lookup(table, 0x8000_000a, 0) matches Some(e)
                    && e.edx & p.extended_a_edx == p.extended_a_edx)
            }
        }),
{
    let all = laws::rules(model, nested);
    laws::law_first_unmet_rule_decides(table, model, host_vendor, nested);
    lemma_rules_met(table, profile::profile_of(model, nested));
    assert forall|k: int| 0 <= k < all.len() implies (#[trigger] all[k]).refusal(table) is None
        <==> met(all[k], table) by {
        reveal(met);
    }
    if forall|k: int| 0 <= k < all.len() ==> (#[trigger] all[k]).refusal(table) is None {
        assert forall|k: int| 0 <= k < all.len() implies met(#[trigger] all[k], table) by {}
    }
}

/// What one rule more does to an entry that is looked up.
proof fn lemma_lookup_step(
    table: Seq<CpuIdEntry>,
    all: Seq<Rule>,
    n: int,
    function: u32,
    index: u32,
)
    requires
        0 <= n < all.len(),
        laws::enforce(table, all, n + 1).refused is None,
    ensures
        laws::enforce(table, all, n).refused is None,
        leaves::lookup(laws::enforce(table, all, n + 1).table, function, index) == if function
            == all[n].function() && index == all[n].index() {
            Some(
                leaves::lookup(
                    laws::enforce(table, all, n).table,
                    function,
                    index,
                )->Some_0.fixed(all[n].register(), all[n].value()),
            )
        } else {
            leaves::lookup(laws::enforce(table, all, n).table, function, index)
        },
{
    apply::lemma_enforce_next(table, all, n);
    laws::lemma_enforced(all[n], laws::enforce(table, all, n).table);
}

/// An entry after the first `m` rules, as far as they are about its leaf and subleaf.
pub open spec fn fixed_by(
    entry: CpuIdEntry,
    all: Seq<Rule>,
    m: int,
    function: u32,
    index: u32,
) -> CpuIdEntry
    decreases m,
{
    if m <= 0 {
        entry
    } else {
        let before = fixed_by(entry, all, m - 1, function, index);
        if function == all[m - 1].function() && index == all[m - 1].index() {
            before.fixed(all[m - 1].register(), all[m - 1].value())
        } else {
            before
        }
    }
}

/// A looked-up entry after rules.
proof fn lemma_lookup_after(
    table: Seq<CpuIdEntry>,
    all: Seq<Rule>,
    n: int,
    function: u32,
    index: u32,
)
    requires
        0 <= n <= all.len(),
        laws::enforce(table, all, n).refused is None,
    ensures
        leaves::lookup(laws::enforce(table, all, n).table, function, index) == match leaves::lookup(
            table,
            function,
            index,
        ) {
            Some(e) => Some(fixed_by(e, all, n, function, index)),
            None => None,
        },
    decreases n,
{
    if n == 0 {
        assert(all.take(0) =~= seq![]);
    } else {
        lemma_lookup_step(table, all, n - 1, function, index);
        lemma_lookup_after(table, all, n - 1, function, index);
        if leaves::lookup(table, function, index) is None && function == all[n - 1].function()
            && index == all[n - 1].index() {
            apply::lemma_enforce_next(table, all, n - 1);
        }
    }
}

/// The guest's entry for a leaf outside the brand.
proof fn lemma_guest_entry(
    table: Seq<CpuIdEntry>,
    model: CpuModel,
    host_vendor: CpuVendor,
    nested: bool,
    function: u32,
    index: u32,
)
    requires
        laws::accepted(table, model, host_vendor, nested),
        !(0x8000_0002 <= function <= 0x8000_0004),
    ensures
        ({
            let all = laws::rules(model, nested);
            leaves::lookup(laws::guest_table(table, model, host_vendor, nested), function, index)
                == match leaves::lookup(table, function, index) {
                Some(e) => Some(fixed_by(e, all, all.len() as int, function, index)),
                None => None,
            }
        }),
{
    let all = laws::rules(model, nested);
    assert(all.take(all.len() as int) =~= all);
    lemma_lookup_after(table, all, all.len() as int, function, index);
    laws::lemma_lookup_with_brand(
        apply::enforce_all(table, all).table,
        laws::brand_of(model),
        function,
        index,
    );
}

/// What a profile's rules make of an entry for a basic leaf.
proof fn lemma_basic_leaves_fixed(p: CpuModelProfile, e: CpuIdEntry)
    ensures
        ({
            let all = apply::rules_of(p);
            let n = all.len() as int;
            &&& fixed_by(e, all, n, 0, 0) == (CpuIdEntry {
                eax: 0xd,
                flags: e.flags | CPUID_FLAG_EXACT_EAX,
                ..e
            })
            &&& fixed_by(e, all, n, 1, 0) == (CpuIdEntry {
                eax: p.signature,
                ebx: 0x800,
                ecx: p.leaf_1_ecx,
                edx: 0x078b_fbff,
                flags: e.flags | CPUID_FLAG_EXACT_EAX | CPUID_FLAG_EXACT_EBX | CPUID_FLAG_EXACT_ECX | CPUID_FLAG_EXACT_EDX,
                ..e
            })
            &&& fixed_by(e, all, n, 6, 0) == (CpuIdEntry {
                eax: 0x4,
                flags: e.flags | CPUID_FLAG_EXACT_EAX,
                ..e
            })
            &&& fixed_by(e, all, n, 7, 0) == (CpuIdEntry {
                eax: 0,
                ebx: p.leaf_7_ebx,
                ecx: p.leaf_7_ecx,
                edx: p.leaf_7_edx,
                flags: e.flags | CPUID_FLAG_EXACT_EAX | CPUID_FLAG_EXACT_EBX | CPUID_FLAG_EXACT_ECX | CPUID_FLAG_EXACT_EDX,
                ..e
            })
            &&& fixed_by(e, all, n, 0xd, 0) == (CpuIdEntry {
                eax: p.xcr0,
                edx: 0,
                flags: e.flags | CPUID_FLAG_EXACT_EAX | CPUID_FLAG_EXACT_EDX,
                ..e
            })
            &&& fixed_by(e, all, n, 0xd, 1) == (CpuIdEntry {
                eax: p.xsave_1_eax,
                ecx: 0,
                edx: 0,
                flags: e.flags | CPUID_FLAG_EXACT_EAX | CPUID_FLAG_EXACT_ECX | CPUID_FLAG_EXACT_EDX,
                ..e
            })
        }),
{
    super::documented::law_leaf_1_of_each_model(CpuModel::Epyc, false);
    reveal_with_fuel(fixed_by, 22);
}

/// What a profile's rules make of an entry for an extended leaf.
proof fn lemma_extended_leaves_fixed(p: CpuModelProfile, e: CpuIdEntry)
    ensures
        ({
            let all = apply::rules_of(p);
            let n = all.len() as int;
            &&& fixed_by(e, all, n, 0x8000_0000, 0) == (CpuIdEntry {
                eax: p.max_extended_leaf,
                flags: e.flags | CPUID_FLAG_EXACT_EAX,
                ..e
            })
            &&& fixed_by(e, all, n, 0x8000_0001, 0) == (CpuIdEntry {
                ecx: p.extended_1_ecx,
                edx: p.extended_1_edx,
                flags: e.flags | CPUID_FLAG_EXACT_ECX | CPUID_FLAG_EXACT_EDX,
                ..e
            })
            &&& fixed_by(e, all, n, 0x8000_0007, 0) == (CpuIdEntry {
                edx: 0,
                flags: e.flags | CPUID_FLAG_EXACT_EDX,
                ..e
            })
            &&& fixed_by(e, all, n, 0x8000_0008, 0) == (CpuIdEntry {
                ebx: p.extended_8_ebx,
                flags: e.flags | CPUID_FLAG_EXACT_EBX,
                ..e
            })
            &&& p.vendor is AMD ==> fixed_by(e, all, n, 0x8000_000a, 0) == (CpuIdEntry {
                edx: p.extended_a_edx,
                flags: e.flags | CPUID_FLAG_EXACT_EDX,
                ..e
            })
        }),
{
    super::documented::law_leaf_1_of_each_model(CpuModel::Epyc, false);
    reveal_with_fuel(fixed_by, 22);
}

/// What the guest reads in the basic leaves: the highest leaf is 0xd, leaf 0x1 has
/// the model's signature and features, leaf 0x6 has ARAT alone, leaf 0x7 and leaf 0xd
/// have the model's features. Each of these registers is fixed for the guest; the
/// entry's other registers and flags are the host's.
pub proof fn law_guest_reads_basic_leaves(
    table: Seq<CpuIdEntry>,
    model: CpuModel,
    host_vendor: CpuVendor,
    nested: bool,
)
    requires
        laws::accepted(table, model, host_vendor, nested),
    ensures
        ({
            let p = profile::profile_of(model, nested);
            let guest = laws::guest_table(table, model, host_vendor, nested);
            &&& leaves::lookup(table, 0, 0) matches Some(h) && leaves::lookup(guest, 0, 0) == Some(
                CpuIdEntry { eax: 0xd, flags: h.flags | CPUID_FLAG_EXACT_EAX, ..h },
            )
            &&& leaves::lookup(table, 1, 0) matches Some(h) && leaves::lookup(guest, 1, 0) == Some(
                CpuIdEntry {
                    eax: p.signature,
                    ebx: 0x800,
                    ecx: p.leaf_1_ecx,
                    edx: 0x078b_fbff,
                    flags: h.flags | CPUID_FLAG_EXACT_EAX | CPUID_FLAG_EXACT_EBX
                        | CPUID_FLAG_EXACT_ECX | CPUID_FLAG_EXACT_EDX,
                    ..h
                },
            )
            &&& leaves::lookup(table, 6, 0) matches Some(h) && leaves::lookup(guest, 6, 0) == Some(
                CpuIdEntry { eax: 0x4, flags: h.flags | CPUID_FLAG_EXACT_EAX, ..h },
            )
            &&& leaves::lookup(table, 7, 0) matches Some(h) && leaves::lookup(guest, 7, 0) == Some(
                CpuIdEntry {
                    eax: 0,
                    ebx: p.leaf_7_ebx,
                    ecx: p.leaf_7_ecx,
                    edx: p.leaf_7_edx,
                    flags: h.flags | CPUID_FLAG_EXACT_EAX | CPUID_FLAG_EXACT_EBX
                        | CPUID_FLAG_EXACT_ECX | CPUID_FLAG_EXACT_EDX,
                    ..h
                },
            )
            &&& leaves::lookup(table, 0xd, 0) matches Some(h) && leaves::lookup(guest, 0xd, 0)
                == Some(
                CpuIdEntry {
                    eax: p.xcr0,
                    edx: 0,
                    flags: h.flags | CPUID_FLAG_EXACT_EAX | CPUID_FLAG_EXACT_EDX,
                    ..h
                },
            )
            &&& leaves::lookup(table, 0xd, 1) matches Some(h) && leaves::lookup(guest, 0xd, 1)
                == Some(
                CpuIdEntry {
                    eax: p.xsave_1_eax,
                    ecx: 0,
                    edx: 0,
                    flags: h.flags | CPUID_FLAG_EXACT_EAX | CPUID_FLAG_EXACT_ECX
                        | CPUID_FLAG_EXACT_EDX,
                    ..h
                },
            )
        }),
{
    law_hosts_that_provide_a_model(table, model, host_vendor, nested);
    super::documented::law_leaf_1_of_each_model(model, nested);
    lemma_guest_entry(table, model, host_vendor, nested, 0, 0);
    lemma_guest_entry(table, model, host_vendor, nested, 1, 0);
    lemma_guest_entry(table, model, host_vendor, nested, 6, 0);
    lemma_guest_entry(table, model, host_vendor, nested, 7, 0);
    lemma_guest_entry(table, model, host_vendor, nested, 0xd, 0);
    lemma_guest_entry(table, model, host_vendor, nested, 0xd, 1);
    let p = profile::profile_of(model, nested);
    if let Some(e) = leaves::lookup(table, 0, 0) {
        lemma_basic_leaves_fixed(p, e);
    }
    if let Some(e) = leaves::lookup(table, 1, 0) {
        lemma_basic_leaves_fixed(p, e);
    }
    if let Some(e) = leaves::lookup(table, 6, 0) {
        lemma_basic_leaves_fixed(p, e);
    }
    if let Some(e) = leaves::lookup(table, 7, 0) {
        lemma_basic_leaves_fixed(p, e);
    }
    if let Some(e) = leaves::lookup(table, 0xd, 0) {
        lemma_basic_leaves_fixed(p, e);
    }
    if let Some(e) = leaves::lookup(table, 0xd, 1) {
        lemma_basic_leaves_fixed(p, e);
    }
}

/// What the guest reads in the extended leaves outside the brand: the model's highest
/// leaf and its features. Each of these registers is fixed for the guest; the
/// entry's other registers and flags are the host's.
pub proof fn law_guest_reads_extended_leaves(
    table: Seq<CpuIdEntry>,
    model: CpuModel,
    host_vendor: CpuVendor,
    nested: bool,
)
    requires
        laws::accepted(table, model, host_vendor, nested),
    ensures
        ({
            let p = profile::profile_of(model, nested);
            let guest = laws::guest_table(table, model, host_vendor, nested);
            &&& leaves::lookup(table, 0x8000_0000, 0) matches Some(h) && leaves::lookup(
                guest,
                0x8000_0000,
                0,
            ) == Some(
                CpuIdEntry {
                    eax: p.max_extended_leaf,
                    flags: h.flags | CPUID_FLAG_EXACT_EAX,
                    ..h
                },
            )
            &&& leaves::lookup(table, 0x8000_0001, 0) matches Some(h) && leaves::lookup(
                guest,
                0x8000_0001,
                0,
            ) == Some(
                CpuIdEntry {
                    ecx: p.extended_1_ecx,
                    edx: p.extended_1_edx,
                    flags: h.flags | CPUID_FLAG_EXACT_ECX | CPUID_FLAG_EXACT_EDX,
                    ..h
                },
            )
            &&& leaves::lookup(table, 0x8000_0007, 0) matches Some(h) && leaves::lookup(
                guest,
                0x8000_0007,
                0,
            ) == Some(CpuIdEntry { edx: 0, flags: h.flags | CPUID_FLAG_EXACT_EDX, ..h })
            &&& leaves::lookup(table, 0x8000_0008, 0) matches Some(h) && leaves::lookup(
                guest,
                0x8000_0008,
                0,
            ) == Some(
                CpuIdEntry { ebx: p.extended_8_ebx, flags: h.flags | CPUID_FLAG_EXACT_EBX, ..h },
            )
            &&& p.vendor is AMD ==> (leaves::lookup(table, 0x8000_000a, 0) matches Some(h)
                && leaves::lookup(guest, 0x8000_000a, 0) == Some(
                CpuIdEntry { edx: p.extended_a_edx, flags: h.flags | CPUID_FLAG_EXACT_EDX, ..h },
            ))
        }),
{
    law_hosts_that_provide_a_model(table, model, host_vendor, nested);
    lemma_guest_entry(table, model, host_vendor, nested, 0x8000_0000, 0);
    lemma_guest_entry(table, model, host_vendor, nested, 0x8000_0001, 0);
    lemma_guest_entry(table, model, host_vendor, nested, 0x8000_0007, 0);
    lemma_guest_entry(table, model, host_vendor, nested, 0x8000_0008, 0);
    lemma_guest_entry(table, model, host_vendor, nested, 0x8000_000a, 0);
    let p = profile::profile_of(model, nested);
    if let Some(e) = leaves::lookup(table, 0x8000_0000, 0) {
        lemma_extended_leaves_fixed(p, e);
    }
    if let Some(e) = leaves::lookup(table, 0x8000_0001, 0) {
        lemma_extended_leaves_fixed(p, e);
    }
    if let Some(e) = leaves::lookup(table, 0x8000_0007, 0) {
        lemma_extended_leaves_fixed(p, e);
    }
    if let Some(e) = leaves::lookup(table, 0x8000_0008, 0) {
        lemma_extended_leaves_fixed(p, e);
    }
    if let Some(e) = leaves::lookup(table, 0x8000_000a, 0) {
        lemma_extended_leaves_fixed(p, e);
    }
}

/// Every other leaf reads as on the host. Of the extended leaf 0x8000000a that holds
/// of the Intel models.
pub proof fn law_guest_reads_other_leaves_of_the_host(
    table: Seq<CpuIdEntry>,
    model: CpuModel,
    host_vendor: CpuVendor,
    nested: bool,
    function: u32,
    index: u32,
)
    requires
        laws::accepted(table, model, host_vendor, nested),
        index != 0 || !(function == 0 || function == 1 || function == 6 || function == 7
            || function == 0xd || function == 0x8000_0000 || function == 0x8000_0001 || function
            == 0x8000_0007 || function == 0x8000_0008),
        index != 1 || function != 0xd,
        index != 0 || function != 0x8000_000a || profile::profile_of(model, nested).vendor is Intel,
        !(0x8000_0002 <= function <= 0x8000_0004),
    ensures
        leaves::lookup(laws::guest_table(table, model, host_vendor, nested), function, index)
            == leaves::lookup(table, function, index),
{
    lemma_guest_entry(table, model, host_vendor, nested, function, index);
    reveal_with_fuel(fixed_by, 22);
}

/// The order in which a model's conditions are tried: the two highest leaves, the
/// signature, and then the features leaf by leaf. Leaf 0x8000000a is tried last, for
/// the AMD models alone.
pub proof fn law_order_of_conditions(model: CpuModel, nested: bool)
    ensures
        ({
            let all = laws::rules(model, nested);
            let order = seq![
                (0u32, 0u32, Register::Eax),
                (0x8000_0000u32, 0u32, Register::Eax),
                (1u32, 0u32, Register::Eax),
                (1u32, 0u32, Register::Ebx),
                (1u32, 0u32, Register::Ecx),
                (1u32, 0u32, Register::Edx),
                (6u32, 0u32, Register::Eax),
                (7u32, 0u32, Register::Eax),
                (7u32, 0u32, Register::Ebx),
                (7u32, 0u32, Register::Ecx),
                (7u32, 0u32, Register::Edx),
                (0xdu32, 0u32, Register::Eax),
                (0xdu32, 0u32, Register::Edx),
                (0xdu32, 1u32, Register::Eax),
                (0xdu32, 1u32, Register::Ecx),
                (0xdu32, 1u32, Register::Edx),
                (0x8000_0001u32, 0u32, Register::Ecx),
                (0x8000_0001u32, 0u32, Register::Edx),
                (0x8000_0007u32, 0u32, Register::Edx),
                (0x8000_0008u32, 0u32, Register::Ebx),
                (0x8000_000au32, 0u32, Register::Edx),
            ];
            &&& all.len() == if model is Epyc || model is EpycRome || model is EpycMilan {
                21int
            } else {
                20int
            }
            &&& forall|k: int|
                0 <= k < all.len() ==> (#[trigger] all[k]).function() == order[k].0
                    && all[k].index() == order[k].1 && all[k].register() == order[k].2
            &&& all[0] is MaxLeaf && all[1] is MaxLeaf && all[2] is Signature
            &&& forall|k: int| 3 <= k < all.len() ==> (#[trigger] all[k]) is Features
        }),
{
}

/// A condition on feature bits is refused where the host lacks the leaf, or else
/// where it lacks bits; the bits that are named are exactly those that the host lacks
/// of the ones required.
pub proof fn law_refusal_of_features(
    table: Seq<CpuIdEntry>,
    function: u32,
    index: u32,
    register: Register,
    value: u32,
)
    ensures
        ({
            let refusal = apply::features(function, index, register, value).refusal(table);
            match leaves::lookup(table, function, index) {
                None => refusal == Some(Refusal::NoSubleaf { function, index }),
                Some(e) => {
                    let host = match register {
                        Register::Eax => e.eax,
                        Register::Ebx => e.ebx,
                        Register::Ecx => e.ecx,
                        Register::Edx => e.edx,
                    };
                    if value & !host == 0 {
                        refusal is None
                    } else {
                        &&& refusal matches Some(Refusal::MissingBits {
                            function: f,
                            index: i,
                            missing,
                        })
                        &&& f == function && i == index
                        &&& missing != 0
                        &&& missing & host == 0
                        &&& missing | (value & host) == value
                    }
                },
            }
        }),
{
    if let Some(e) = leaves::lookup(table, function, index) {
        let host = e.register(register);
        assert((host & value == value) <==> (value & !host == 0)) by (bit_vector);
        assert((value & !host) & host == 0 && (value & !host) | (value & host) == value)
            by (bit_vector);
    }
}

/// A condition on the highest leaf of a range is refused where the host lacks the
/// leaf, or else where the host's number is below the one required. The signature is
/// refused only where the host lacks leaf 0x1.
pub proof fn law_refusal_of_leaves(table: Seq<CpuIdEntry>, function: u32, value: u32)
    ensures
        ({
            let highest = (Rule::MaxLeaf { function, value }).refusal(table);
            let signature = (Rule::Signature { value }).refusal(table);
            &&& match leaves::lookup(table, function, 0) {
                None => highest == Some(Refusal::NoLeaf { function }),
                Some(e) => if (e.eax as int) < (value as int) {
                    highest == Some(Refusal::MaxLeaf { function, host: e.eax, required: value })
                } else {
                    highest is None
                },
            }
            &&& match leaves::lookup(table, 1, 0) {
                None => signature == Some(Refusal::NoLeaf { function: 1 }),
                Some(_) => signature is None,
            }
        }),
{
}

/// What a refused model leaves behind: the registers of the conditions before the
/// first that the host does not meet are fixed to the model's values, and every
/// other register of every leaf reads as on the host, the brand leaves too.
pub proof fn law_refused_model_stops_at_the_first_unmet_condition(
    table: Seq<CpuIdEntry>,
    model: CpuModel,
    nested: bool,
    k: int,
    function: u32,
    index: u32,
)
    requires
        0 <= k < laws::rules(model, nested).len(),
        laws::rules(model, nested)[k].refusal(table) is Some,
        forall|j: int|
            0 <= j < k ==> (#[trigger] laws::rules(model, nested)[j]).refusal(table) is None,
    ensures
        ({
            let vendor = profile::profile_of(model, nested).vendor;
            let all = laws::rules(model, nested);
            let outcome = apply::modelled(table, model, vendor, nested);
            &&& outcome.refused == all[k].refusal(table)
            &&& outcome.table.len() == table.len()
            &&& leaves::lookup(outcome.table, function, index) == match leaves::lookup(
                table,
                function,
                index,
            ) {
                Some(e) => Some(fixed_by(e, all, k, function, index)),
                None => None,
            }
        }),
{
    let vendor = profile::profile_of(model, nested).vendor;
    let all = laws::rules(model, nested);
    laws::law_first_unmet_rule_decides(table, model, vendor, nested);
    laws::lemma_rules_distinct(profile::profile_of(model, nested));
    laws::lemma_no_refusal_before(table, all, k);
    laws::lemma_independent(table, all, k);
    apply::lemma_enforce_next(table, all, k);
    apply::lemma_refusal_is_final(table, all, k + 1);
    lemma_lookup_after(table, all, k, function, index);
}

/// Rules change no entry but the first for its leaf and subleaf, and keep what leaf
/// and subleaf it is for.
pub proof fn law_only_first_entries_change(
    table: Seq<CpuIdEntry>,
    model: CpuModel,
    nested: bool,
    i: int,
    j: int,
)
    requires
        0 <= i < j < table.len(),
        table[i].function == table[j].function,
        table[i].index == table[j].index,
    ensures
        ({
            let after = apply::enforce_all(table, laws::rules(model, nested)).table;
            after.len() == table.len() && after[j] == table[j]
        }),
{
    let all = laws::rules(model, nested);
    assert(all.take(all.len() as int) =~= all);
    lemma_later_entry_stays(table, all, all.len() as int, i, j);
}

proof fn lemma_later_entry_stays(
    table: Seq<CpuIdEntry>,
    all: Seq<Rule>,
    n: int,
    i: int,
    j: int,
)
    requires
        0 <= n <= all.len(),
        0 <= i < j < table.len(),
        table[i].function == table[j].function,
        table[i].index == table[j].index,
    ensures
        ({
            let after = laws::enforce(table, all, n).table;
            &&& after.len() == table.len()
            &&& after[j] == table[j]
            &&& after[i].function == table[i].function
            &&& after[i].index == table[i].index
        }),
    decreases n,
{
    if n == 0 {
        assert(all.take(0) =~= seq![]);
    } else {
        lemma_later_entry_stays(table, all, n - 1, i, j);
        apply::lemma_enforce_next(table, all, n - 1);
        let before = laws::enforce(table, all, n - 1).table;
        let rule = all[n - 1];
        if let Some(k) = leaves::position(before, rule.function(), rule.index()) {
            assert(leaves::is_first(before, rule.function(), rule.index(), k));
            if k == j {
                assert(before[i].is_leaf(rule.function(), rule.index()));
            }
        }
    }
}

/// Restricting one register, in terms of the entries themselves: with `i` the first
/// entry for the leaf and subleaf, success is owed exactly where the host's register
/// has all bits of the value. Then that register of that entry is the value, fixed for
/// the guest, and everything else stays; on a refusal everything stays.
pub proof fn law_restricting_a_register(
    model: CpuModel,
    before: Seq<CpuIdEntry>,
    after: Seq<CpuIdEntry>,
    function: u32,
    index: u32,
    register: Register,
    value: u32,
    result: Result<(), Error>,
    i: int,
)
    requires
        apply::enforces(
            apply::features(function, index, register, value),
            model,
            before,
            after,
            result,
        ),
        0 <= i < before.len(),
        before[i].function == function && before[i].index == index,
        forall|j: int|
            0 <= j < i ==> (#[trigger] before[j]).function != function || before[j].index != index,
    ensures
        ({
            let host = match register {
                Register::Eax => before[i].eax,
                Register::Ebx => before[i].ebx,
                Register::Ecx => before[i].ecx,
                Register::Edx => before[i].edx,
            };
            &&& result is Ok <==> host & value == value
            &&& result is Ok ==> after == before.update(
                i,
                match register {
                    Register::Eax => CpuIdEntry {
                        eax: value,
                        flags: before[i].flags | CPUID_FLAG_EXACT_EAX,
                        ..before[i]
                    },
                    Register::Ebx => CpuIdEntry {
                        ebx: value,
                        flags: before[i].flags | CPUID_FLAG_EXACT_EBX,
                        ..before[i]
                    },
                    Register::Ecx => CpuIdEntry {
                        ecx: value,
                        flags: before[i].flags | CPUID_FLAG_EXACT_ECX,
                        ..before[i]
                    },
                    Register::Edx => CpuIdEntry {
                        edx: value,
                        flags: before[i].flags | CPUID_FLAG_EXACT_EDX,
                        ..before[i]
                    },
                },
            )
            &&& result matches Err(e) ==> after == before && e.reports(
                model,
                Refusal::MissingBits { function, index, missing: value & !host },
            )
        }),
{
    leaves::law_lookup_finds_the_first_entry(before, function, index, i);
}

/// Capping the highest leaf of a range and setting the signature, in terms of the
/// entries themselves, with `i` the first entry for the leaf.
pub proof fn law_setting_a_number(
    model: CpuModel,
    before: Seq<CpuIdEntry>,
    after: Seq<CpuIdEntry>,
    function: u32,
    value: u32,
    result: Result<(), Error>,
    i: int,
)
    requires
        0 <= i < before.len(),
        before[i].function == function && before[i].index == 0,
        forall|j: int|
            0 <= j < i ==> (#[trigger] before[j]).function != function || before[j].index != 0,
    ensures
        ({
            let set = before.update(
                i,
                CpuIdEntry {
                    eax: value,
                    flags: before[i].flags | CPUID_FLAG_EXACT_EAX,
                    ..before[i]
                },
            );
            &&& apply::enforces(Rule::MaxLeaf { function, value }, model, before, after, result) ==> {
                &&& result is Ok <==> before[i].eax >= value
                &&& result is Ok ==> after == set
                &&& result matches Err(e) ==> after == before && e.reports(
                    model,
                    Refusal::MaxLeaf { function, host: before[i].eax, required: value },
                )
            }
            &&& function == 1 && apply::enforces(
                Rule::Signature { value },
                model,
                before,
                after,
                result,
            ) ==> result is Ok && after == set
        }),
{
    leaves::law_lookup_finds_the_first_entry(before, function, 0, i);
}

/// Where the host lacks the leaf, each of these is refused and changes nothing.
pub proof fn law_missing_leaf_is_refused(
    model: CpuModel,
    before: Seq<CpuIdEntry>,
    after: Seq<CpuIdEntry>,
    function: u32,
    index: u32,
    register: Register,
    value: u32,
    result: Result<(), Error>,
)
    requires
        forall|j: int|
            0 <= j < before.len() ==> (#[trigger] before[j]).function != function
                || before[j].index != index,
    ensures
        apply::enforces(
            apply::features(function, index, register, value),
            model,
            before,
            after,
            result,
        ) ==> after == before && (result matches Err(e) && e.reports(
            model,
            Refusal::NoSubleaf { function, index },
        )),
        index == 0 && apply::enforces(
            Rule::MaxLeaf { function, value },
            model,
            before,
            after,
            result,
        ) ==> after == before && (result matches Err(e) && e.reports(
            model,
            Refusal::NoLeaf { function },
        )),
        index == 0 && function == 1 && apply::enforces(
            Rule::Signature { value },
            model,
            before,
            after,
            result,
        ) ==> after == before && (result matches Err(e) && e.reports(
            model,
            Refusal::NoLeaf { function: 1 },
        )),
{
    leaves::law_lookup_finds_the_first_entry(before, function, index, 0);
}

/// A byte of a register, the least significant one first.
pub open spec fn register_byte(register: u32, k: int) -> int {
    if k == 0 {
        register as int % 0x100
    } else if k == 1 {
        register as int / 0x100 % 0x100
    } else if k == 2 {
        register as int / 0x1_0000 % 0x100
    } else {
        register as int / 0x100_0000
    }
}

/// The brand leaves spell out a brand: all entries of leaves 0x80000002 to 0x80000004
/// are replaced by three at the end of the table, one for each leaf in order, with
/// every register fixed. Their registers, `eax` to `edx`, hold the brand byte by byte,
/// filled up with spaces. The other entries stay as they are.
pub proof fn law_brand_is_spelled_out(table: Seq<CpuIdEntry>, text: Seq<u8>, n: int, k: int)
    requires
        0 <= n < 3,
        0 <= k < 4,
    ensures
        ({
            let after = brand::with_brand(table, text);
            let kept = table.filter(
                |e: CpuIdEntry| e.function < 0x8000_0002 || e.function > 0x8000_0004,
            );
            let e = after[kept.len() + n];
            let byte = |at: int|
                if at < text.len() {
                    text[at] as int
                } else {
                    0x20
                };
            &&& after.len() == kept.len() + 3
            &&& after.take(kept.len() as int) == kept
            &&& e.function == 0x8000_0002 + n
            &&& e.index == 0
            &&& e.flags == 0xf000_0000
            &&& register_byte(e.eax, k) == byte(16 * n + k)
            &&& register_byte(e.ebx, k) == byte(16 * n + 4 + k)
            &&& register_byte(e.ecx, k) == byte(16 * n + 8 + k)
            &&& register_byte(e.edx, k) == byte(16 * n + 12 + k)
        }),
{
    let raw = |e: CpuIdEntry| e.function < 0x8000_0002 || e.function > 0x8000_0004;
    assert(raw =~= brand::outside_brand(3));
    let kept = table.filter(raw);
    let after = brand::with_brand(table, text);
    assert(after.take(kept.len() as int) =~= kept);
    let bytes = brand::padded(text);
    assert(CPUID_FLAG_EXACT_EAX | CPUID_FLAG_EXACT_EBX | CPUID_FLAG_EXACT_ECX
        | CPUID_FLAG_EXACT_EDX == 0xf000_0000u32) by (bit_vector);
    lemma_word_bytes(bytes, 16 * n);
    lemma_word_bytes(bytes, 16 * n + 4);
    lemma_word_bytes(bytes, 16 * n + 8);
    lemma_word_bytes(bytes, 16 * n + 12);
}

/// The bytes of a number made of four.
proof fn lemma_bytes_of_sum(b0: int, b1: int, b2: int, b3: int)
    requires
        0 <= b0 < 0x100,
        0 <= b1 < 0x100,
        0 <= b2 < 0x100,
        0 <= b3 < 0x100,
    ensures
        ({
            let w = b0 + 0x100 * b1 + 0x1_0000 * b2 + 0x100_0000 * b3;
            &&& w % 0x100 == b0
            &&& w / 0x100 % 0x100 == b1
            &&& w / 0x1_0000 % 0x100 == b2
            &&& w / 0x100_0000 == b3
        }),
{
    let w = b0 + 0x100 * b1 + 0x1_0000 * b2 + 0x100_0000 * b3;
    assert(w / 0x100 == b1 + 0x100 * b2 + 0x1_0000 * b3);
    assert(w / 0x1_0000 == b2 + 0x100 * b3);
}

proof fn lemma_word_bytes(bytes: Seq<u8>, start: int)
    requires
        0 <= start,
        start + 4 <= bytes.len(),
    ensures
        forall|k: int|
            0 <= k < 4 ==> #[trigger] register_byte(brand::word(bytes, start), k) == bytes[start
                + k],
{
    let part = bytes.subrange(start, start + 4);
    le::lemma_le_value_4(part);
    lemma_bytes_of_sum(part[0] as int, part[1] as int, part[2] as int, part[3] as int);
    let w = brand::word(bytes, start);
    assert(w == part[0] + 0x100 * part[1] + 0x1_0000 * part[2] + 0x100_0000 * part[3]);
    assert forall|k: int| 0 <= k < 4 implies #[trigger] register_byte(w, k) == bytes[start + k] by {
        assert(part[k] == bytes[start + k]);
        assert(k == 0 || k == 1 || k == 2 || k == 3);
    }
}

/// An accepted model's brand leaves spell out the model's brand, and outside them the
/// guest's table has the host's leaves and subleaves, in the host's order.
pub proof fn law_guest_reads_the_brand(
    table: Seq<CpuIdEntry>,
    model: CpuModel,
    host_vendor: CpuVendor,
    nested: bool,
    i: int,
)
    requires
        laws::accepted(table, model, host_vendor, nested),
    ensures
        ({
            let brand = profile::profile_of(model, nested).brand@;
            let enforced = apply::enforce_all(table, laws::rules(model, nested)).table;
            let bytes = vstd::utf8::encode_utf8(brand);
            &&& laws::guest_table(table, model, host_vendor, nested) == brand::with_brand(
                enforced,
                bytes,
            )
            &&& laws::same_leaves(table, enforced)
            &&& bytes.len() == brand.len()
            &&& bytes.len() <= 48
            &&& 0 <= i < brand.len() ==> bytes[i] as char == brand[i]
        }),
{
    let brand = profile::profile_of(model, nested).brand@;
    laws::law_leaves_stay_in_order(table, model, host_vendor, nested);
    apply::lemma_brand_fits(model, nested);
    reveal_strlit("Intel Xeon Processor (Skylake)");
    reveal_strlit("Intel Xeon Processor (Cascade Lake)");
    reveal_strlit("Intel Xeon Processor (Ice Lake)");
    reveal_strlit("AMD EPYC Processor");
    reveal_strlit("AMD EPYC Rome Processor");
    reveal_strlit("AMD EPYC Milan Processor");
    assert(vstd::utf8::is_ascii_chars(brand));
    vstd::utf8::is_ascii_chars_encode_utf8(brand);
    vstd::utf8::is_ascii_chars_nat_bound(brand);
}

} // verus!
