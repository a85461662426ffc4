//! Restricting a host's CPUID table to a CPU model.
use super::brand;
use super::error::{Error, Refusal};
use super::profile;
use super::profile::{CpuModel, CpuModelProfile, CpuVendor, LEAF_1_EDX};
use crate::leaves;
use crate::leaves::{CpuIdEntry, Register};
use vstd::prelude::*;

verus! {

/// One condition that a model puts on a CPUID table, and what the guest then
/// sees in the place of the host's value.
#[derive(Clone, Copy)]
pub enum Rule {
    /// The highest leaf of a range reaches `value`, and the guest sees `value`.
    MaxLeaf { function: u32, value: u32 },
    /// The guest sees `value` as the CPU's signature.
    Signature { value: u32 },
    /// The host has every bit of `value` in a register, and the guest sees no other.
    Features { function: u32, index: u32, register: Register, value: u32 },
}

impl Rule {
    /// The leaf that the rule is about.
    pub open spec fn function(self) -> u32 {
        match self {
            Rule::MaxLeaf { function, .. } => function,
            Rule::Signature { .. } => 1,
            Rule::Features { function, .. } => function,
        }
    }

    /// The subleaf that the rule is about.
    pub open spec fn index(self) -> u32 {
        match self {
            Rule::Features { index, .. } => index,
            _ => 0,
        }
    }

    /// The register that the rule is about.
    pub open spec fn register(self) -> Register {
        match self {
            Rule::Features { register, .. } => register,
            _ => Register::Eax,
        }
    }

    /// What the guest sees in the register.
    pub open spec fn value(self) -> u32 {
        match self {
            Rule::MaxLeaf { value, .. } => value,
            Rule::Signature { value } => value,
            Rule::Features { value, .. } => value,
        }
    }

    /// The host's value for the register allows the rule.
    pub open spec fn allows(self, host: u32) -> bool {
        match self {
            Rule::MaxLeaf { value, .. } => host >= value,
            Rule::Signature { .. } => true,
            Rule::Features { value, .. } => host & value == value,
        }
    }

    /// Why a table does not allow the rule, where it does not.
    pub open spec fn refusal(self, table: Seq<CpuIdEntry>) -> Option<Refusal> {
        let function = self.function();
        let index = self.index();
        match leaves::lookup(table, function, index) {
            None => Some(
                match self {
                    Rule::Features { .. } => Refusal::NoSubleaf { function, index },
                    _ => Refusal::NoLeaf { function },
                },
            ),
            Some(entry) => {
                let host = entry.register(self.register());
                if self.allows(host) {
                    None
                } else {
                    Some(
                        match self {
                            Rule::Features { value, .. } => Refusal::MissingBits {
                                function,
                                index,
                                missing: value & !host,
                            },
                            _ => Refusal::MaxLeaf { function, host, required: self.value() },
                        },
                    )
                }
            },
        }
    }

    /// The table in which the rule has fixed its register, in the first entry
    /// for its leaf and subleaf.
    pub open spec fn enforced(self, table: Seq<CpuIdEntry>) -> Seq<CpuIdEntry> {
        match leaves::position(table, self.function(), self.index()) {
            None => table,
            Some(i) => table.update(i, table[i].fixed(self.register(), self.value())),
        }
    }
}

/// A table, and what stopped the work on it, if anything did.
pub struct Outcome {
    pub table: Seq<CpuIdEntry>,
    pub refused: Option<Refusal>,
}

/// Enforces rules one after the other, up to the first that the table does not allow.
pub open spec fn enforce_all(table: Seq<CpuIdEntry>, rules: Seq<Rule>) -> Outcome
    decreases rules.len(),
{
    if rules.len() == 0 {
        Outcome { table, refused: None }
    } else {
        let before = enforce_all(table, rules.drop_last());
        if before.refused is Some {
            before
        } else if rules.last().refusal(before.table) is Some {
            Outcome { table: before.table, refused: rules.last().refusal(before.table) }
        } else {
            Outcome { table: rules.last().enforced(before.table), refused: None }
        }
    }
}

/// The rules of a profile, in the order in which they are enforced.
pub open spec fn rules_of(p: CpuModelProfile) -> Seq<Rule> {
    let common = seq![
        Rule::MaxLeaf { function: 0, value: 0xd },
        Rule::MaxLeaf { function: 0x8000_0000, value: p.max_extended_leaf },
        Rule::Signature { value: p.signature },
        features(1, 0, Register::Ebx, 0x800),
        features(1, 0, Register::Ecx, p.leaf_1_ecx),
        features(1, 0, Register::Edx, LEAF_1_EDX),
        features(6, 0, Register::Eax, 0x4),
        features(7, 0, Register::Eax, 0),
        features(7, 0, Register::Ebx, p.leaf_7_ebx),
        features(7, 0, Register::Ecx, p.leaf_7_ecx),
        features(7, 0, Register::Edx, p.leaf_7_edx),
        features(0xd, 0, Register::Eax, p.xcr0),
        features(0xd, 0, Register::Edx, 0),
        features(0xd, 1, Register::Eax, p.xsave_1_eax),
        features(0xd, 1, Register::Ecx, 0),
        features(0xd, 1, Register::Edx, 0),
        features(0x8000_0001, 0, Register::Ecx, p.extended_1_ecx),
        features(0x8000_0001, 0, Register::Edx, p.extended_1_edx),
        features(0x8000_0007, 0, Register::Edx, 0),
        features(0x8000_0008, 0, Register::Ebx, p.extended_8_ebx),
    ];
    if p.vendor is AMD {
        common.push(features(0x8000_000a, 0, Register::Edx, p.extended_a_edx))
    } else {
        common
    }
}

/// A features rule, in short.
pub open spec fn features(function: u32, index: u32, register: Register, value: u32) -> Rule {
    Rule::Features { function, index, register, value }
}

/// Work that a rule stopped stays as it was left, whatever rules would follow.
pub proof fn lemma_refusal_is_final(table: Seq<CpuIdEntry>, rules: Seq<Rule>, n: int)
    requires
        0 <= n <= rules.len(),
        enforce_all(table, rules.take(n)).refused is Some,
    ensures
        enforce_all(table, rules) == enforce_all(table, rules.take(n)),
    decreases rules.len(),
{
    if n < rules.len() {
        assert(rules.drop_last().take(n) =~= rules.take(n));
        lemma_refusal_is_final(table, rules.drop_last(), n);
    } else {
        assert(rules.take(n) =~= rules);
    }
}

/// One rule more.
pub proof fn lemma_enforce_next(table: Seq<CpuIdEntry>, rules: Seq<Rule>, n: int)
    requires
        0 <= n < rules.len(),
    ensures
        ({
            let before = enforce_all(table, rules.take(n));
            enforce_all(table, rules.take(n + 1)) == if before.refused is Some {
                before
            } else if rules[n].refusal(before.table) is Some {
                Outcome { table: before.table, refused: rules[n].refusal(before.table) }
            } else {
                Outcome { table: rules[n].enforced(before.table), refused: None }
            }
        }),
{
    assert(rules.take(n + 1).drop_last() =~= rules.take(n));
}

/// What a function that enforces one rule returns and leaves behind.
pub open spec fn enforces(
    rule: Rule,
    model: CpuModel,
    before: Seq<CpuIdEntry>,
    after: Seq<CpuIdEntry>,
    result: Result<(), Error>,
) -> bool {
    match result {
        Ok(_) => rule.refusal(before) is None && after == rule.enforced(before),
        Err(e) => {
            &&& rule.refusal(before) is Some
            &&& e.reports(model, rule.refusal(before)->Some_0)
            &&& after == before
        },
    }
}

/// Restricts a register to feature bits that the host must have.
pub fn apply_register(
    cpuid: &mut [CpuIdEntry],
    model: CpuModel,
    function: u32,
    index: u32,
    register: Register,
    value: u32,
) -> (r: Result<(), Error>)
    ensures
        enforces(features(function, index, register, value), model, old(cpuid)@, final(cpuid)@, r),
{
    let i = match leaves::find_leaf(cpuid, function, index) {
        Some(i) => i,
        None => {
            return Err(Error::new(model, Refusal::NoSubleaf { function, index }));
        },
    };
    let mut entry = cpuid[i];
    let host = entry.get(register);
    if host & value != value {
        return Err(Error::new(model, Refusal::MissingBits { function, index, missing: value & !host }));
    }
    entry.fix(register, value);
    cpuid[i] = entry;
    Ok(())
}

/// Gives the guest the model's signature.
pub fn set_signature(cpuid: &mut [CpuIdEntry], model: CpuModel, signature: u32) -> (r: Result<
    (),
    Error,
>)
    ensures
        enforces(Rule::Signature { value: signature }, model, old(cpuid)@, final(cpuid)@, r),
{
    let i = match leaves::find_leaf(cpuid, 1, 0) {
        Some(i) => i,
        None => {
            return Err(Error::new(model, Refusal::NoLeaf { function: 1 }));
        },
    };
    let mut entry = cpuid[i];
    entry.fix(Register::Eax, signature);
    cpuid[i] = entry;
    Ok(())
}

/// Caps the highest leaf of a range, which the host must reach.
pub fn set_max_leaf(cpuid: &mut [CpuIdEntry], model: CpuModel, function: u32, value: u32) -> (r:
    Result<(), Error>)
    ensures
        enforces(Rule::MaxLeaf { function, value }, model, old(cpuid)@, final(cpuid)@, r),
{
    let i = match leaves::find_leaf(cpuid, function, 0) {
        Some(i) => i,
        None => {
            return Err(Error::new(model, Refusal::NoLeaf { function }));
        },
    };
    let mut entry = cpuid[i];
    if entry.eax < value {
        return Err(
            Error::new(model, Refusal::MaxLeaf { function, host: entry.eax, required: value }),
        );
    }
    entry.fix(Register::Eax, value);
    cpuid[i] = entry;
    Ok(())
}

/// The outcome of giving a guest a model on a host of some vendor.
pub open spec fn modelled(
    table: Seq<CpuIdEntry>,
    model: CpuModel,
    host_vendor: CpuVendor,
    nested: bool,
) -> Outcome {
    let p = profile::profile_of(model, nested);
    if host_vendor != p.vendor {
        Outcome {
            table,
            refused: Some(Refusal::Vendor { model_vendor: p.vendor, host_vendor }),
        }
    } else {
        let enforced = enforce_all(table, rules_of(p));
        if enforced.refused is Some {
            enforced
        } else {
            Outcome {
                table: brand::with_brand(enforced.table, vstd::utf8::encode_utf8(p.brand@)),
                refused: None,
            }
        }
    }
}

/// A profile's brand fits into the brand leaves.
pub proof fn lemma_brand_fits(model: CpuModel, nested: bool)
    ensures
        vstd::utf8::encode_utf8(profile::profile_of(model, nested).brand@).len()
            <= brand::BRAND_LEN,
{
    let brand = profile::profile_of(model, nested).brand@;
    reveal_strlit("Intel Xeon Processor (Skylake)");
    reveal_strlit("Intel Xeon Processor (Cascade Lake)");
    reveal_strlit("Intel Xeon Processor (Ice Lake)");
    reveal_strlit("AMD EPYC Processor");
    reveal_strlit("AMD EPYC Rome Processor");
    reveal_strlit("AMD EPYC Milan Processor");
    assert(vstd::utf8::is_ascii_chars(brand));
    vstd::utf8::is_ascii_chars_encode_utf8(brand);
}

/// Restricts a host's CPUID table to a model. Where the host cannot provide the
/// model, the rules before the one that failed stay enforced.
pub fn apply_cpu_model(
    cpuid: &mut Vec<CpuIdEntry>,
    model: CpuModel,
    host_vendor: CpuVendor,
    nested: bool,
) -> (r: Result<(), Error>)
    ensures
        ({
            let outcome = modelled(old(cpuid)@, model, host_vendor, nested);
            &&& final(cpuid)@ == outcome.table
            &&& match r {
                Ok(_) => outcome.refused is None,
                Err(e) => outcome.refused is Some && e.reports(model, outcome.refused->Some_0),
            }
        }),
{
    let ghost table = cpuid@;
    let profile = CpuModelProfile::for_model(model, nested);
    if host_vendor != profile.vendor {
        return Err(
            Error::new(model, Refusal::Vendor { model_vendor: profile.vendor, host_vendor }),
        );
    }
    let ghost rules = rules_of(profile);
    assert(rules.take(0) =~= seq![]);
    proof {
        lemma_enforce_next(table, rules, 0);
        lemma_enforce_next(table, rules, 1);
        lemma_enforce_next(table, rules, 2);
    }
    if let Err(e) = set_max_leaf(cpuid, model, 0, 0xd) {
        proof {
            lemma_refusal_is_final(table, rules, 1);
        }
        return Err(e);
    }
    if let Err(e) = set_max_leaf(cpuid, model, 0x8000_0000, profile.max_extended_leaf) {
        proof {
            lemma_refusal_is_final(table, rules, 2);
        }
        return Err(e);
    }
    if let Err(e) = set_signature(cpuid, model, profile.signature) {
        proof {
            lemma_refusal_is_final(table, rules, 3);
        }
        return Err(e);
    }
    let registers: [(u32, u32, Register, u32); 17] = [
        (1, 0, Register::Ebx, 8 << 8),
        (1, 0, Register::Ecx, profile.leaf_1_ecx),
        (1, 0, Register::Edx, LEAF_1_EDX),
        (6, 0, Register::Eax, 1 << 2),
        (7, 0, Register::Eax, 0),
        (7, 0, Register::Ebx, profile.leaf_7_ebx),
        (7, 0, Register::Ecx, profile.leaf_7_ecx),
        (7, 0, Register::Edx, profile.leaf_7_edx),
        (0xd, 0, Register::Eax, profile.xcr0),
        (0xd, 0, Register::Edx, 0),
        (0xd, 1, Register::Eax, profile.xsave_1_eax),
        (0xd, 1, Register::Ecx, 0),
        (0xd, 1, Register::Edx, 0),
        (0x8000_0001, 0, Register::Ecx, profile.extended_1_ecx),
        (0x8000_0001, 0, Register::Edx, profile.extended_1_edx),
        (0x8000_0007, 0, Register::Edx, 0),
        (0x8000_0008, 0, Register::Ebx, profile.extended_8_ebx),
    ];
    proof {
        assert(8u32 << 8 == 0x800 && 1u32 << 2 == 0x4) by (bit_vector);
        assert forall|j: int| 0 <= j < 17 implies #[trigger] rules[3 + j] == features(
            registers@[j].0,
            registers@[j].1,
            registers@[j].2,
            registers@[j].3,
        ) by {}
    }
    let mut i: usize = 0;
    while i < 17
        invariant
            i <= 17,
            rules.len() >= 20,
            forall|j: int|
                0 <= j < 17 ==> #[trigger] rules[3 + j] == features(
                    registers@[j].0,
                    registers@[j].1,
                    registers@[j].2,
                    registers@[j].3,
                ),
            host_vendor == profile.vendor,
            profile == profile::profile_of(model, nested),
            table == old(cpuid)@,
            rules == rules_of(profile),
            enforce_all(table, rules.take(3 + i)) == (Outcome { table: cpuid@, refused: None }),
        decreases 17 - i,
    {
        let (function, index, register, value) = registers[i];
        assert(rules[3 + i] == features(function, index, register, value));
        proof {
            lemma_enforce_next(table, rules, 3 + i);
        }
        if let Err(e) = apply_register(cpuid, model, function, index, register, value) {
            proof {
                lemma_refusal_is_final(table, rules, 4 + i);
            }
            return Err(e);
        }
        i = i + 1;
    }
    if matches!(profile.vendor, CpuVendor::AMD) {
        proof {
            lemma_enforce_next(table, rules, 20);
        }
        if let Err(e) = apply_register(
            cpuid,
            model,
            0x8000_000a,
            0,
            Register::Edx,
            profile.extended_a_edx,
        ) {
            proof {
                lemma_refusal_is_final(table, rules, 21);
            }
            return Err(e);
        }
    }
    assert(rules.take(rules.len() as int) =~= rules);
    proof {
        lemma_brand_fits(model, nested);
    }
    brand::set_brand_string(cpuid, profile.brand);
    Ok(())
}

} // verus!
