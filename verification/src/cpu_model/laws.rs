//! What holds of CPU models as a whole.
use super::apply;
use super::apply::{Outcome, Rule};
use super::brand;
use super::error::Refusal;
use super::profile;
use super::profile::{CpuModel, CpuModelProfile, CpuVendor};
use crate::le;
use crate::leaves;
use crate::leaves::{CpuIdEntry, Register};
use vstd::prelude::*;

verus! {

/// Two tables describe the same leaves and subleaves, in the same order.
pub open spec fn same_leaves(a: Seq<CpuIdEntry>, b: Seq<CpuIdEntry>) -> bool {
    &&& a.len() == b.len()
    &&& forall|i: int|
        #![trigger a[i]]
        #![trigger b[i]]
        0 <= i < a.len() ==> a[i].function == b[i].function && a[i].index == b[i].index
}

/// A rule is about a register of a leaf and subleaf.
pub open spec fn is_about(rule: Rule, function: u32, index: u32, register: Register) -> bool {
    rule.function() == function && rule.index() == index && rule.register() == register
}

/// No two rules are about the same register.
pub open spec fn distinct(rules: Seq<Rule>) -> bool {
    forall|i: int, j: int|
        #![trigger rules[i], rules[j]]
        0 <= i < j < rules.len() ==> !is_about(
            rules[i],
            rules[j].function(),
            rules[j].index(),
            rules[j].register(),
        )
}

/// The first entry for a rule's leaf holds what the rule says, fixed for the guest.
pub open spec fn holds(rule: Rule, table: Seq<CpuIdEntry>) -> bool {
    match leaves::lookup(table, rule.function(), rule.index()) {
        Some(entry) => entry.is_fixed(rule.register(), rule.value()),
        None => false,
    }
}

/// A register of a leaf and subleaf, where the table has an entry for them.
pub open spec fn read(
    table: Seq<CpuIdEntry>,
    function: u32,
    index: u32,
    register: Register,
) -> Option<u32> {
    match leaves::lookup(table, function, index) {
        Some(entry) => Some(entry.register(register)),
        None => None,
    }
}

proof fn lemma_same_position(
    a: Seq<CpuIdEntry>,
    b: Seq<CpuIdEntry>,
    function: u32,
    index: u32,
)
    requires
        same_leaves(a, b),
    ensures
        leaves::position(a, function, index) == leaves::position(b, function, index),
{
    leaves::lemma_position_exists(a, function, index);
    leaves::lemma_position_exists(b, function, index);
    if let Some(i) = leaves::position(a, function, index) {
        assert(leaves::is_first(a, function, index, i));
        assert forall|j: int| 0 <= j < i implies !(#[trigger] b[j]).is_leaf(function, index) by {
            assert(!a[j].is_leaf(function, index));
        }
        assert(a[i].is_leaf(function, index));
        assert(leaves::is_first(b, function, index, i));
        leaves::lemma_position_is_first(b, function, index, i);
    } else if let Some(i) = leaves::position(b, function, index) {
        assert(leaves::is_first(b, function, index, i));
        assert(a[i].is_leaf(function, index));
    }
}

proof fn lemma_flag_set(flags: u32, register: Register, other: Register)
    ensures
        (flags | register.exact_flag()) & register.exact_flag() != 0,
        flags & other.exact_flag() != 0 ==> (flags | register.exact_flag()) & other.exact_flag()
            != 0,
        flags & register.exact_flag() != 0 ==> flags | register.exact_flag() == flags,
{
    let f = register.exact_flag();
    let g = other.exact_flag();
    assert(1u32 << 28 == 0x1000_0000u32 && 1u32 << 29 == 0x2000_0000u32 && 1u32 << 30
        == 0x4000_0000u32 && 1u32 << 31 == 0x8000_0000u32) by (bit_vector);
    assert((flags | f) & f != 0 && (flags & g != 0 ==> (flags | f) & g != 0) && (flags & f != 0
        ==> flags | f == flags)) by (bit_vector)
        requires
            f == 0x1000_0000u32 || f == 0x2000_0000u32 || f == 0x4000_0000u32 || f
                == 0x8000_0000u32,
    ;
}

/// What enforcing one rule changes.
pub proof fn lemma_enforced(rule: Rule, table: Seq<CpuIdEntry>)
    requires
        rule.refusal(table) is None,
    ensures
        same_leaves(table, rule.enforced(table)),
        holds(rule, rule.enforced(table)),
        forall|function: u32, index: u32|
            #![trigger leaves::lookup(rule.enforced(table), function, index)]
            leaves::lookup(rule.enforced(table), function, index) == if function
                == rule.function() && index == rule.index() {
                Some(
                    leaves::lookup(table, function, index)->Some_0.fixed(
                        rule.register(),
                        rule.value(),
                    ),
                )
            } else {
                leaves::lookup(table, function, index)
            },
{
    let after = rule.enforced(table);
    let i = leaves::position(table, rule.function(), rule.index())->Some_0;
    assert(leaves::is_first(table, rule.function(), rule.index(), i));
    assert(same_leaves(table, after));
    assert forall|function: u32, index: u32|
        #![trigger leaves::lookup(after, function, index)]
        leaves::lookup(after, function, index) == if function == rule.function() && index
            == rule.index() {
            Some(
                leaves::lookup(table, function, index)->Some_0.fixed(rule.register(), rule.value()),
            )
        } else {
            leaves::lookup(table, function, index)
        } by {
        lemma_same_position(table, after, function, index);
        if let Some(j) = leaves::position(table, function, index) {
            assert(leaves::is_first(table, function, index, j));
        }
    }
    assert(leaves::lookup(after, rule.function(), rule.index()) is Some);
    lemma_flag_set(table[i].flags, rule.register(), rule.register());
}

/// Rules about distinct registers do not get in each other's way.
pub proof fn lemma_independent(table: Seq<CpuIdEntry>, rules: Seq<Rule>, n: int)
    requires
        distinct(rules),
        0 <= n <= rules.len(),
        enforce(table, rules, n).refused is None,
    ensures
        same_leaves(table, enforce(table, rules, n).table),
        forall|k: int| 0 <= k < n ==> (#[trigger] rules[k]).refusal(table) is None,
        forall|k: int| 0 <= k < n ==> holds(#[trigger] rules[k], enforce(table, rules, n).table),
        forall|k: int|
            n <= k < rules.len() ==> (#[trigger] rules[k]).refusal(table) == rules[k].refusal(
                enforce(table, rules, n).table,
            ),
        forall|function: u32, index: u32, register: Register|
            #![trigger read(enforce(table, rules, n).table, function, index, register)]
            (forall|k: int|
                0 <= k < n ==> !is_about(#[trigger] rules[k], function, index, register)) ==> read(
                enforce(table, rules, n).table,
                function,
                index,
                register,
            ) == read(table, function, index, register),
    decreases n,
{
    let after = enforce(table, rules, n).table;
    if n == 0 {
        assert(rules.take(0) =~= seq![]);
    } else {
        let m = n - 1;
        apply::lemma_enforce_next(table, rules, m);
        let before = enforce(table, rules, m).table;
        let rule = rules[m];
        lemma_independent(table, rules, m);
        lemma_enforced(rule, before);
        assert(rule.refusal(table) is None);
        assert(same_leaves(table, after));
        assert forall|k: int| 0 <= k < n implies holds(#[trigger] rules[k], after) by {
            if k < m {
                let r = rules[k];
                assert(holds(r, before));
                let e = leaves::lookup(before, r.function(), r.index())->Some_0;
                assert(leaves::lookup(after, r.function(), r.index()) is Some);
                lemma_flag_set(e.flags, rule.register(), r.register());
                assert(!is_about(r, rule.function(), rule.index(), rule.register()));
            }
        }
        assert forall|function: u32, index: u32, register: Register|
            #![trigger read(after, function, index, register)]
            (forall|k: int|
                0 <= k < n ==> !is_about(
                    #[trigger] rules[k],
                    function,
                    index,
                    register,
                )) implies read(after, function, index, register) == read(
            table,
            function,
            index,
            register,
        ) by {
            assert(!is_about(rules[m], function, index, register));
            assert(read(before, function, index, register) == read(
                table,
                function,
                index,
                register,
            ));
            assert(leaves::lookup(after, function, index) is Some
                <==> leaves::lookup(before, function, index) is Some);
        }
        assert forall|k: int| n <= k < rules.len() implies (#[trigger] rules[k]).refusal(table)
            == rules[k].refusal(after) by {
            let r = rules[k];
            assert forall|j: int| 0 <= j < n implies !is_about(
                #[trigger] rules[j],
                r.function(),
                r.index(),
                r.register(),
            ) by {}
            assert(read(after, r.function(), r.index(), r.register()) == read(
                table,
                r.function(),
                r.index(),
                r.register(),
            ));
        }
    }
}

/// The outcome of the first `n` rules.
pub open spec fn enforce(table: Seq<CpuIdEntry>, rules: Seq<Rule>, n: int) -> Outcome {
    apply::enforce_all(table, rules.take(n))
}

/// The rules of a profile are about distinct registers.
pub proof fn lemma_rules_distinct(p: CpuModelProfile)
    ensures
        distinct(apply::rules_of(p)),
{
}

/// No rule of a profile is about a brand leaf.
proof fn lemma_rules_outside_brand(p: CpuModelProfile)
    ensures
        forall|k: int|
            0 <= k < apply::rules_of(p).len() ==> !is_brand_leaf(
                (#[trigger] apply::rules_of(p)[k]).function(),
            ),
{
}

/// Rules about other leaves than the brand's hold whatever the brand is.
proof fn lemma_brand_keeps_rules(table: Seq<CpuIdEntry>, text: Seq<u8>, all: Seq<Rule>)
    requires
        forall|k: int| 0 <= k < all.len() ==> !is_brand_leaf((#[trigger] all[k]).function()),
        forall|k: int| 0 <= k < all.len() ==> holds(#[trigger] all[k], table),
    ensures
        forall|k: int|
            0 <= k < all.len() ==> holds(#[trigger] all[k], brand::with_brand(table, text)),
{
    assert forall|k: int| 0 <= k < all.len() implies holds(
        #[trigger] all[k],
        brand::with_brand(table, text),
    ) by {
        assert(holds(all[k], table));
        lemma_lookup_with_brand(table, text, all[k].function(), all[k].index());
    }
}

/// An entry more at the end of a table.
proof fn lemma_lookup_push(table: Seq<CpuIdEntry>, e: CpuIdEntry, function: u32, index: u32)
    ensures
        leaves::lookup(table.push(e), function, index) == match leaves::lookup(
            table,
            function,
            index,
        ) {
            Some(found) => Some(found),
            None => if e.is_leaf(function, index) {
                Some(e)
            } else {
                None
            },
        },
{
    let longer = table.push(e);
    leaves::lemma_position_exists(table, function, index);
    leaves::lemma_position_exists(longer, function, index);
    if let Some(i) = leaves::position(table, function, index) {
        assert(leaves::is_first(table, function, index, i));
        assert forall|j: int| 0 <= j < i implies !(#[trigger] longer[j]).is_leaf(
            function,
            index,
        ) by {
            assert(longer[j] == table[j]);
        }
        assert(leaves::is_first(longer, function, index, i));
        leaves::lemma_position_is_first(longer, function, index, i);
    } else {
        assert forall|j: int| 0 <= j < table.len() implies !(#[trigger] longer[j]).is_leaf(
            function,
            index,
        ) by {
            assert(longer[j] == table[j]);
        }
        if e.is_leaf(function, index) {
            assert(leaves::is_first(longer, function, index, table.len() as int));
            leaves::lemma_position_is_first(longer, function, index, table.len() as int);
        }
    }
}

/// Dropping entries of other leaves does not change what is looked up, and
/// dropping all entries of a leaf leaves nothing to look up.
proof fn lemma_lookup_filter(
    table: Seq<CpuIdEntry>,
    keep: spec_fn(CpuIdEntry) -> bool,
    function: u32,
    index: u32,
)
    ensures
        (forall|e: CpuIdEntry| #[trigger] e.is_leaf(function, index) ==> keep(e))
            ==> leaves::lookup(table.filter(keep), function, index) == leaves::lookup(
            table,
            function,
            index,
        ),
        (forall|e: CpuIdEntry| #[trigger] e.is_leaf(function, index) ==> !keep(e))
            ==> leaves::lookup(table.filter(keep), function, index) is None,
    decreases table.len(),
{
    reveal(Seq::filter);
    if table.len() > 0 {
        let front = table.drop_last();
        let e = table.last();
        lemma_lookup_filter(front, keep, function, index);
        lemma_lookup_push(front, e, function, index);
        lemma_lookup_push(front.filter(keep), e, function, index);
        assert(front.push(e) =~= table);
    } else {
        leaves::lemma_position_exists(table, function, index);
        assert(table.filter(keep) =~= table);
    }
}

/// What the brand leaves and the others hold once the brand is set.
pub proof fn lemma_lookup_with_brand(
    table: Seq<CpuIdEntry>,
    text: Seq<u8>,
    function: u32,
    index: u32,
)
    ensures
        leaves::lookup(brand::with_brand(table, text), function, index) == if is_brand_leaf(
            function,
        ) {
            if index == 0 {
                Some(brand::brand_entry(brand::padded(text), function - brand::FIRST_BRAND_LEAF))
            } else {
                None
            }
        } else {
            leaves::lookup(table, function, index)
        },
{
    let kept = table.filter(brand::outside_brand(3));
    let bytes = brand::padded(text);
    let e0 = brand::brand_entry(bytes, 0);
    let e1 = brand::brand_entry(bytes, 1);
    let e2 = brand::brand_entry(bytes, 2);
    lemma_lookup_filter(table, brand::outside_brand(3), function, index);
    lemma_lookup_push(kept, e0, function, index);
    lemma_lookup_push(kept.push(e0), e1, function, index);
    lemma_lookup_push(kept.push(e0).push(e1), e2, function, index);
    assert(brand::with_brand(table, text) =~= kept.push(e0).push(e1).push(e2));
}

/// The leaf is one of those that hold the brand string.
pub open spec fn is_brand_leaf(function: u32) -> bool {
    brand::FIRST_BRAND_LEAF <= function < brand::FIRST_BRAND_LEAF + 3
}

/// The rules that a model puts on a table.
pub open spec fn rules(model: CpuModel, nested: bool) -> Seq<Rule> {
    apply::rules_of(profile::profile_of(model, nested))
}

/// The table and vendor of the host allow a model.
pub open spec fn accepted(
    table: Seq<CpuIdEntry>,
    model: CpuModel,
    host_vendor: CpuVendor,
    nested: bool,
) -> bool {
    apply::modelled(table, model, host_vendor, nested).refused is None
}

/// The guest's table for an accepted model.
pub open spec fn guest_table(
    table: Seq<CpuIdEntry>,
    model: CpuModel,
    host_vendor: CpuVendor,
    nested: bool,
) -> Seq<CpuIdEntry> {
    apply::modelled(table, model, host_vendor, nested).table
}

/// A host provides a model exactly where it is of the model's vendor and the
/// table it started with meets every rule of the model. Where it does not, the
/// refusal is that of the first rule that the table does not meet.
pub proof fn law_first_unmet_rule_decides(
    table: Seq<CpuIdEntry>,
    model: CpuModel,
    host_vendor: CpuVendor,
    nested: bool,
)
    ensures
        accepted(table, model, host_vendor, nested) <==> {
            &&& host_vendor == model.family().vendor()
            &&& forall|k: int|
                0 <= k < rules(model, nested).len() ==> (#[trigger] rules(
                    model,
                    nested,
                )[k]).refusal(table) is None
        },
        host_vendor == model.family().vendor() ==> forall|k: int|
            #![trigger rules(model, nested)[k]]
            0 <= k < rules(model, nested).len() && rules(model, nested)[k].refusal(table) is Some
                && (forall|j: int|
                0 <= j < k ==> (#[trigger] rules(model, nested)[j]).refusal(table) is None)
                ==> apply::modelled(table, model, host_vendor, nested).refused == rules(
                model,
                nested,
            )[k].refusal(table),
{
    let all = rules(model, nested);
    lemma_rules_distinct(profile::profile_of(model, nested));
    assert(all.take(all.len() as int) =~= all);
    if host_vendor == model.family().vendor() {
        if accepted(table, model, host_vendor, nested) {
            lemma_independent(table, all, all.len() as int);
        }
        assert forall|k: int|
            #![trigger all[k]]
            0 <= k < all.len() && all[k].refusal(table) is Some && (forall|j: int|
                0 <= j < k ==> (#[trigger] all[j]).refusal(table)
                    is None) implies apply::modelled(
            table,
            model,
            host_vendor,
            nested,
        ).refused == all[k].refusal(table) by {
            lemma_no_refusal_before(table, all, k);
            lemma_independent(table, all, k);
            apply::lemma_enforce_next(table, all, k);
            apply::lemma_refusal_is_final(table, all, k + 1);
        }
        if forall|k: int| 0 <= k < all.len() ==> (#[trigger] all[k]).refusal(table) is None {
            lemma_no_refusal_before(table, all, all.len() as int);
        }
    }
}

/// Rules that the starting table meets stop nothing.
pub proof fn lemma_no_refusal_before(table: Seq<CpuIdEntry>, all: Seq<Rule>, n: int)
    requires
        distinct(all),
        0 <= n <= all.len(),
        forall|k: int| 0 <= k < n ==> (#[trigger] all[k]).refusal(table) is None,
    ensures
        enforce(table, all, n).refused is None,
    decreases n,
{
    if n > 0 {
        lemma_no_refusal_before(table, all, n - 1);
        lemma_independent(table, all, n - 1);
        apply::lemma_enforce_next(table, all, n - 1);
        assert(all[n - 1].refusal(table) is None);
    } else {
        assert(all.take(0) =~= seq![]);
    }
}

/// Every register that a model speaks of holds the model's value, fixed for the
/// guest, and the brand leaves spell out the model's brand.
pub proof fn law_guest_sees_the_profile(
    table: Seq<CpuIdEntry>,
    model: CpuModel,
    host_vendor: CpuVendor,
    nested: bool,
)
    requires
        accepted(table, model, host_vendor, nested),
    ensures
        forall|k: int|
            0 <= k < rules(model, nested).len() ==> holds(
                #[trigger] rules(model, nested)[k],
                guest_table(table, model, host_vendor, nested),
            ),
        forall|n: int|
            #![trigger brand::brand_entry(brand::padded(brand_of(model)), n)]
            0 <= n < 3 ==> leaves::lookup(
                guest_table(table, model, host_vendor, nested),
                (brand::FIRST_BRAND_LEAF + n) as u32,
                0,
            ) == Some(brand::brand_entry(brand::padded(brand_of(model)), n)),
{
    let all = rules(model, nested);
    lemma_rules_distinct(profile::profile_of(model, nested));
    assert(all.take(all.len() as int) =~= all);
    lemma_independent(table, all, all.len() as int);
    let enforced = apply::enforce_all(table, all).table;
    let guest = guest_table(table, model, host_vendor, nested);
    lemma_rules_outside_brand(profile::profile_of(model, nested));
    lemma_brand_keeps_rules(enforced, brand_of(model), all);
    assert forall|n: int|
        #![trigger brand::brand_entry(brand::padded(brand_of(model)), n)]
        0 <= n < 3 implies leaves::lookup(guest, (brand::FIRST_BRAND_LEAF + n) as u32, 0) == Some(
        brand::brand_entry(brand::padded(brand_of(model)), n),
    ) by {
        lemma_lookup_with_brand(
            enforced,
            brand_of(model),
            (brand::FIRST_BRAND_LEAF + n) as u32,
            0,
        );
    }
}

/// The bytes of a model's brand.
pub open spec fn brand_of(model: CpuModel) -> Seq<u8> {
    vstd::utf8::encode_utf8(model.family().brand()@)
}

/// A model looks the same on every host that provides it: whatever the two hosts'
/// tables were, the guests read the same in every register that the model
/// speaks of and in the brand leaves.
pub proof fn law_stable_across_hosts(
    first: Seq<CpuIdEntry>,
    second: Seq<CpuIdEntry>,
    model: CpuModel,
    host_vendor: CpuVendor,
    nested: bool,
)
    requires
        accepted(first, model, host_vendor, nested),
        accepted(second, model, host_vendor, nested),
    ensures
        forall|k: int|
            #![trigger rules(model, nested)[k]]
            0 <= k < rules(model, nested).len() ==> {
                let rule = rules(model, nested)[k];
                read(
                    guest_table(first, model, host_vendor, nested),
                    rule.function(),
                    rule.index(),
                    rule.register(),
                ) == read(
                    guest_table(second, model, host_vendor, nested),
                    rule.function(),
                    rule.index(),
                    rule.register(),
                )
            },
        forall|function: u32, index: u32|
            #![trigger leaves::lookup(
                guest_table(first, model, host_vendor, nested), function, index)]
            is_brand_leaf(function) ==> leaves::lookup(
                guest_table(first, model, host_vendor, nested),
                function,
                index,
            ) == leaves::lookup(
                guest_table(second, model, host_vendor, nested),
                function,
                index,
            ),
{
    law_guest_sees_the_profile(first, model, host_vendor, nested);
    law_guest_sees_the_profile(second, model, host_vendor, nested);
    let all = rules(model, nested);
    assert forall|k: int| #![trigger all[k]] 0 <= k < all.len() implies ({
        let rule = all[k];
        read(
            guest_table(first, model, host_vendor, nested),
            rule.function(),
            rule.index(),
            rule.register(),
        ) == read(
            guest_table(second, model, host_vendor, nested),
            rule.function(),
            rule.index(),
            rule.register(),
        )
    }) by {
        assert(holds(all[k], guest_table(first, model, host_vendor, nested)));
        assert(holds(all[k], guest_table(second, model, host_vendor, nested)));
    }
    assert forall|function: u32, index: u32|
        #![trigger leaves::lookup(guest_table(first, model, host_vendor, nested), function, index)]
        is_brand_leaf(function) implies leaves::lookup(
        guest_table(first, model, host_vendor, nested),
        function,
        index,
    ) == leaves::lookup(guest_table(second, model, host_vendor, nested), function, index) by {
        lemma_lookup_with_brand(
            apply::enforce_all(first, all).table,
            brand_of(model),
            function,
            index,
        );
        lemma_lookup_with_brand(
            apply::enforce_all(second, all).table,
            brand_of(model),
            function,
            index,
        );
    }
}

/// A model gives the guest no feature that the host lacks: in every feature
/// register that the model speaks of, the guest's bits are among the host's.
pub proof fn law_masks_host_features(
    table: Seq<CpuIdEntry>,
    model: CpuModel,
    host_vendor: CpuVendor,
    nested: bool,
)
    requires
        accepted(table, model, host_vendor, nested),
    ensures
        forall|k: int|
            #![trigger rules(model, nested)[k]]
            0 <= k < rules(model, nested).len() && rules(model, nested)[k] is Features ==> {
                let rule = rules(model, nested)[k];
                let host = read(table, rule.function(), rule.index(), rule.register());
                let guest = read(
                    guest_table(table, model, host_vendor, nested),
                    rule.function(),
                    rule.index(),
                    rule.register(),
                );
                &&& host is Some
                &&& guest is Some
                &&& guest->Some_0 & !host->Some_0 == 0
            },
{
    law_first_unmet_rule_decides(table, model, host_vendor, nested);
    law_guest_sees_the_profile(table, model, host_vendor, nested);
    let all = rules(model, nested);
    assert forall|k: int|
        #![trigger all[k]]
        0 <= k < all.len() && all[k] is Features implies ({
        let rule = all[k];
        let host = read(table, rule.function(), rule.index(), rule.register());
        let guest = read(
            guest_table(table, model, host_vendor, nested),
            rule.function(),
            rule.index(),
            rule.register(),
        );
        &&& host is Some
        &&& guest is Some
        &&& guest->Some_0 & !host->Some_0 == 0
    }) by {
        let rule = all[k];
        assert(rule.refusal(table) is None);
        assert(holds(rule, guest_table(table, model, host_vendor, nested)));
        let h = read(table, rule.function(), rule.index(), rule.register())->Some_0;
        let v = rule.value();
        assert(h & v == v ==> v & !h == 0) by (bit_vector);
    }
}

/// A model leaves alone what it does not speak of: of the leaves outside the
/// brand, a register that no rule is about reads as it did on the host, and a
/// leaf that no rule is about keeps its first entry as it was. This holds
/// of a refused model too, whose table may be half restricted.
pub proof fn law_leaves_other_registers_alone(
    table: Seq<CpuIdEntry>,
    model: CpuModel,
    host_vendor: CpuVendor,
    nested: bool,
    function: u32,
    index: u32,
)
    requires
        !is_brand_leaf(function),
    ensures
        forall|register: Register|
            (forall|k: int|
                0 <= k < rules(model, nested).len() ==> !is_about(
                    #[trigger] rules(model, nested)[k],
                    function,
                    index,
                    register,
                )) ==> #[trigger] read(
                guest_table(table, model, host_vendor, nested),
                function,
                index,
                register,
            ) == read(table, function, index, register),
        (forall|k: int|
            0 <= k < rules(model, nested).len() ==> (#[trigger] rules(
                model,
                nested,
            )[k]).function() != function || rules(model, nested)[k].index() != index)
            ==> leaves::lookup(
            guest_table(table, model, host_vendor, nested),
            function,
            index,
        ) == leaves::lookup(table, function, index),
{
    let all = rules(model, nested);
    lemma_rules_distinct(profile::profile_of(model, nested));
    assert(all.take(all.len() as int) =~= all);
    if host_vendor == model.family().vendor() {
        let n = lemma_stops_at(table, all, all.len() as int);
        let enforced = enforce(table, all, n).table;
        lemma_independent(table, all, n);
        lemma_unmentioned_leaf(table, all, n, function, index);
        lemma_lookup_with_brand(enforced, brand_of(model), function, index);
        assert forall|register: Register|
            (forall|k: int|
                0 <= k < all.len() ==> !is_about(
                    #[trigger] all[k],
                    function,
                    index,
                    register,
                )) implies #[trigger] read(
            guest_table(table, model, host_vendor, nested),
            function,
            index,
            register,
        ) == read(table, function, index, register) by {
            assert(read(enforced, function, index, register) == read(
                table,
                function,
                index,
                register,
            ));
        }
    }
}

/// Outside the brand leaves a model neither adds, drops nor reorders entries: the
/// table that its rules leave has the leaves of the host's table, in the same
/// order. A refused model leaves that table, an accepted one adds the brand to it.
pub proof fn law_leaves_stay_in_order(
    table: Seq<CpuIdEntry>,
    model: CpuModel,
    host_vendor: CpuVendor,
    nested: bool,
)
    ensures
        ({
            let outcome = apply::modelled(table, model, host_vendor, nested);
            let enforced = apply::enforce_all(table, rules(model, nested)).table;
            &&& same_leaves(table, enforced)
            &&& outcome.refused is Some ==> same_leaves(table, outcome.table)
            &&& outcome.refused is None ==> outcome.table == brand::with_brand(
                enforced,
                brand_of(model),
            )
        }),
{
    let all = rules(model, nested);
    lemma_rules_distinct(profile::profile_of(model, nested));
    assert(all.take(all.len() as int) =~= all);
    let n = lemma_stops_at(table, all, all.len() as int);
    lemma_independent(table, all, n);
}

/// Work on a table goes as far as some number of rules, all of them met.
pub proof fn lemma_stops_at(table: Seq<CpuIdEntry>, all: Seq<Rule>, len: int) -> (n: int)
    requires
        0 <= len <= all.len(),
    ensures
        0 <= n <= len,
        enforce(table, all, n).refused is None,
        enforce(table, all, n).table == enforce(table, all, len).table,
        enforce(table, all, len).refused is None ==> n == len,
    decreases len,
{
    if enforce(table, all, len).refused is None {
        len
    } else {
        if len == 0 {
            assert(all.take(0) =~= seq![]);
        }
        apply::lemma_enforce_next(table, all, len - 1);
        lemma_stops_at(table, all, len - 1)
    }
}

/// A leaf that no rule is about keeps its first entry.
proof fn lemma_unmentioned_leaf(
    table: Seq<CpuIdEntry>,
    all: Seq<Rule>,
    n: int,
    function: u32,
    index: u32,
)
    requires
        0 <= n <= all.len(),
        enforce(table, all, n).refused is None,
    ensures
        (forall|k: int|
            0 <= k < n ==> (#[trigger] all[k]).function() != function || all[k].index() != index)
            ==> leaves::lookup(enforce(table, all, n).table, function, index) == leaves::lookup(
            table,
            function,
            index,
        ),
    decreases n,
{
    if n == 0 {
        assert(all.take(0) =~= seq![]);
    } else {
        apply::lemma_enforce_next(table, all, n - 1);
        lemma_unmentioned_leaf(table, all, n - 1, function, index);
        lemma_enforced(all[n - 1], enforce(table, all, n - 1).table);
        if forall|k: int|
            0 <= k < n ==> (#[trigger] all[k]).function() != function || all[k].index() != index {
            assert(all[n - 1].function() != function || all[n - 1].index() != index);
        }
    }
}

/// Giving a guest the same model again changes nothing and is not refused.
pub proof fn law_idempotent(
    table: Seq<CpuIdEntry>,
    model: CpuModel,
    host_vendor: CpuVendor,
    nested: bool,
)
    requires
        accepted(table, model, host_vendor, nested),
    ensures
        apply::modelled(
            guest_table(table, model, host_vendor, nested),
            model,
            host_vendor,
            nested,
        ) == (Outcome {
            table: guest_table(table, model, host_vendor, nested),
            refused: None,
        }),
{
    let all = rules(model, nested);
    let guest = guest_table(table, model, host_vendor, nested);
    let enforced = apply::enforce_all(table, all).table;
    law_guest_sees_the_profile(table, model, host_vendor, nested);
    assert(all.take(all.len() as int) =~= all);
    lemma_already_enforced(guest, all, all.len() as int);
    law_last_brand_stays(enforced, brand_of(model), brand_of(model));
}

/// Rules that already hold change nothing.
proof fn lemma_already_enforced(table: Seq<CpuIdEntry>, all: Seq<Rule>, n: int)
    requires
        0 <= n <= all.len(),
        forall|k: int| 0 <= k < n ==> holds(#[trigger] all[k], table),
    ensures
        enforce(table, all, n) == (Outcome { table, refused: None }),
    decreases n,
{
    if n == 0 {
        assert(all.take(0) =~= seq![]);
    } else {
        lemma_already_enforced(table, all, n - 1);
        apply::lemma_enforce_next(table, all, n - 1);
        let rule = all[n - 1];
        assert(holds(rule, table));
        let i = leaves::position(table, rule.function(), rule.index())->Some_0;
        assert(leaves::is_first(table, rule.function(), rule.index(), i));
        let v = rule.value();
        assert(v & v == v) by (bit_vector);
        lemma_flag_set(table[i].flags, rule.register(), rule.register());
        assert(table[i].fixed(rule.register(), v) == table[i]);
        assert(rule.enforced(table) =~= table);
    }
}

/// A brand takes the place of the one before: of two brands set one after the other,
/// only the second is left.
pub proof fn law_last_brand_stays(table: Seq<CpuIdEntry>, first: Seq<u8>, second: Seq<u8>)
    ensures
        brand::with_brand(brand::with_brand(table, first), second) == brand::with_brand(
            table,
            second,
        ),
{
    let keep = brand::outside_brand(3);
    let entries = brand::brand_entries(brand::padded(first));
    Seq::filter_distributes_over_add(table.filter(keep), entries, keep);
    lemma_filter_twice(table, keep);
    reveal_with_fuel(Seq::filter, 4);
    assert(entries.filter(keep) =~= seq![]) by {
        let e2 = entries.drop_last();
        let e1 = e2.drop_last();
        let e0 = e1.drop_last();
        assert(e0.len() == 0);
        assert(!keep(entries.last()) && !keep(e2.last()) && !keep(e1.last()));
    }
    assert(table.filter(keep) + entries.filter(keep) =~= table.filter(keep));
}

proof fn lemma_filter_twice(table: Seq<CpuIdEntry>, keep: spec_fn(CpuIdEntry) -> bool)
    ensures
        table.filter(keep).filter(keep) == table.filter(keep),
    decreases table.len(),
{
    reveal(Seq::filter);
    if table.len() > 0 {
        let front = table.drop_last();
        lemma_filter_twice(front, keep);
        if keep(table.last()) {
            assert(front.filter(keep).push(table.last()).drop_last() =~= front.filter(keep));
        }
    }
}

/// A host of another vendor is refused before anything is changed.
pub proof fn law_foreign_vendor_changes_nothing(
    table: Seq<CpuIdEntry>,
    model: CpuModel,
    host_vendor: CpuVendor,
    nested: bool,
)
    requires
        host_vendor != model.family().vendor(),
    ensures
        apply::modelled(table, model, host_vendor, nested) == (Outcome {
            table,
            refused: Some(
                Refusal::Vendor { model_vendor: model.family().vendor(), host_vendor },
            ),
        }),
{
}

/// A variant without TSX is the model that it starts from with the two TSX bits
/// cleared, and Skylake with IBRS is Skylake with that one bit set.
pub proof fn law_variants_differ_in_one_register(model: CpuModel, nested: bool)
    ensures
        model.without_tsx() ==> {
            &&& profile::profile_of(model, nested) == (CpuModelProfile {
                leaf_7_ebx: profile::profile_of(model, nested).leaf_7_ebx,
                ..profile::profile_of(model.base(), nested)
            })
            &&& profile::profile_of(model, nested).leaf_7_ebx & profile::TSX == 0
            &&& profile::profile_of(model, nested).leaf_7_ebx | profile::TSX
                == profile::profile_of(model.base(), nested).leaf_7_ebx
        },
        model is SkylakeServerIbrs ==> profile::profile_of(model, nested) == (CpuModelProfile {
            leaf_7_edx: profile::LEAF_7_EDX_IBRS,
            ..profile::profile_of(model.base(), nested)
        }),
{
    if model.without_tsx() {
        assert((profile::SKYLAKE_LEAF_7_EBX & !profile::TSX) & profile::TSX == 0
            && (profile::SKYLAKE_LEAF_7_EBX & !profile::TSX) | profile::TSX
            == profile::SKYLAKE_LEAF_7_EBX) by (bit_vector);
        assert((profile::CASCADELAKE_LEAF_7_EBX & !profile::TSX) & profile::TSX == 0
            && (profile::CASCADELAKE_LEAF_7_EBX & !profile::TSX) | profile::TSX
            == profile::CASCADELAKE_LEAF_7_EBX) by (bit_vector);
        assert((profile::ICELAKE_LEAF_7_EBX & !profile::TSX) & profile::TSX == 0
            && (profile::ICELAKE_LEAF_7_EBX & !profile::TSX) | profile::TSX
            == profile::ICELAKE_LEAF_7_EBX) by (bit_vector);
    }
}

/// What nested guests need only adds feature bits to a model.
pub proof fn law_nesting_only_adds(model: CpuModel)
    ensures
        ({
            let plain = profile::profile_of(model, false);
            let nested = profile::profile_of(model, true);
            &&& nested == (CpuModelProfile {
                leaf_1_ecx: nested.leaf_1_ecx,
                extended_1_ecx: nested.extended_1_ecx,
                extended_a_edx: nested.extended_a_edx,
                ..plain
            })
            &&& plain.leaf_1_ecx & nested.leaf_1_ecx == plain.leaf_1_ecx
            &&& plain.extended_1_ecx & nested.extended_1_ecx == plain.extended_1_ecx
            &&& plain.extended_a_edx & nested.extended_a_edx == plain.extended_a_edx
        }),
{
    let plain = profile::profile_of(model, false);
    let nested = profile::profile_of(model, true);
    assert(forall|a: u32, b: u32| #[trigger] ((a | 0) & (a | b)) == a | 0) by (bit_vector);
    assert(forall|a: u32| #[trigger] (a & a) == a) by (bit_vector);
    assert(forall|a: u32| #[trigger] (0 & a) == 0) by (bit_vector);
    assert(forall|a: u32, b: u32, c: u32| #[trigger]
        (((a | 0) | c) & ((a | b) | c)) == (a | 0) | c) by (bit_vector);
}

/// The registers of the brand leaves, read in order as little-endian bytes, are
/// the brand filled up with spaces.
pub proof fn law_brand_reads_back(text: Seq<u8>)
    ensures
        ({
            let e = brand::brand_entries(brand::padded(text));
            registers_as_bytes(e[0]) + registers_as_bytes(e[1]) + registers_as_bytes(e[2])
                == brand::padded(text)
        }),
{
    let bytes = brand::padded(text);
    let e = brand::brand_entries(bytes);
    assert forall|start: int| 0 <= start <= 44 implies le::le_bytes(
        #[trigger] brand::word(bytes, start) as nat,
        4,
    ) == bytes.subrange(start, start + 4) by {
        let part = bytes.subrange(start, start + 4);
        le::lemma_le_value_4(part);
        le::lemma_le_bytes_of_value(part);
    }
    assert(registers_as_bytes(e[0]) =~= bytes.subrange(0, 16));
    assert(registers_as_bytes(e[1]) =~= bytes.subrange(16, 32));
    assert(registers_as_bytes(e[2]) =~= bytes.subrange(32, 48));
    assert(bytes.subrange(0, 16) + bytes.subrange(16, 32) + bytes.subrange(32, 48) =~= bytes);
}

/// The four registers of an entry as little-endian bytes, `eax` first.
pub open spec fn registers_as_bytes(entry: CpuIdEntry) -> Seq<u8> {
    le::le_bytes(entry.eax as nat, 4) + le::le_bytes(entry.ebx as nat, 4) + le::le_bytes(
        entry.ecx as nat,
        4,
    ) + le::le_bytes(entry.edx as nat, 4)
}

} // verus!
