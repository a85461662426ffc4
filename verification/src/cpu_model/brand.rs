//! The processor brand string, which leaves 0x80000002 to 0x80000004 spell out.
use crate::le;
use crate::leaves::{
    CpuIdEntry, CPUID_FLAG_EXACT_EAX, CPUID_FLAG_EXACT_EBX, CPUID_FLAG_EXACT_ECX,
    CPUID_FLAG_EXACT_EDX,
};
use vstd::prelude::*;

verus! {

/// How many bytes a brand string has.
pub const BRAND_LEN: usize = 48;

/// The first of the three leaves that hold the brand string.
pub const FIRST_BRAND_LEAF: u32 = 0x8000_0002;

/// A brand string, filled up with spaces.
pub open spec fn padded(brand: Seq<u8>) -> Seq<u8> {
    Seq::new(
        BRAND_LEN as nat,
        |i: int|
            if i < brand.len() {
                brand[i]
            } else {
                0x20
            },
    )
}

/// The four bytes from `start` on, as one register holds them.
pub open spec fn word(bytes: Seq<u8>, start: int) -> u32 {
    le::le_value(bytes.subrange(start, start + 4)) as u32
}

/// The entry for the `n`-th brand leaf of a padded brand string.
pub open spec fn brand_entry(bytes: Seq<u8>, n: int) -> CpuIdEntry {
    CpuIdEntry {
        function: (FIRST_BRAND_LEAF + n) as u32,
        index: 0,
        flags: CPUID_FLAG_EXACT_EAX | CPUID_FLAG_EXACT_EBX | CPUID_FLAG_EXACT_ECX
            | CPUID_FLAG_EXACT_EDX,
        eax: word(bytes, 16 * n),
        ebx: word(bytes, 16 * n + 4),
        ecx: word(bytes, 16 * n + 8),
        edx: word(bytes, 16 * n + 12),
    }
}

/// The three entries that spell out a padded brand string.
pub open spec fn brand_entries(bytes: Seq<u8>) -> Seq<CpuIdEntry> {
    Seq::new(3, |n: int| brand_entry(bytes, n))
}

/// Tells the entries that are none of the first `n` brand leaves.
pub open spec fn outside_brand(n: int) -> spec_fn(CpuIdEntry) -> bool {
    |e: CpuIdEntry| !(FIRST_BRAND_LEAF <= e.function < FIRST_BRAND_LEAF + n)
}

/// Tells the entries of other leaves than `function`.
pub open spec fn other_leaf(function: u32) -> spec_fn(CpuIdEntry) -> bool {
    |e: CpuIdEntry| e.function != function
}

/// The table in which the brand leaves hold a brand string, after all others.
pub open spec fn with_brand(table: Seq<CpuIdEntry>, brand: Seq<u8>) -> Seq<CpuIdEntry> {
    table.filter(outside_brand(3)) + brand_entries(padded(brand))
}

/// Dropping the next brand leaf.
proof fn lemma_drop_next(table: Seq<CpuIdEntry>, n: int)
    requires
        0 <= n < 3,
    ensures
        table.filter(outside_brand(n)).filter(other_leaf((FIRST_BRAND_LEAF + n) as u32))
            == table.filter(outside_brand(n + 1)),
    decreases table.len(),
{
    reveal(Seq::filter);
    if table.len() > 0 {
        lemma_drop_next(table.drop_last(), n);
        let e = table.last();
        let kept = table.drop_last().filter(outside_brand(n));
        if outside_brand(n)(e) {
            assert(kept.push(e).drop_last() =~= kept);
        }
    }
}

/// Before any brand leaf is dropped, the whole table is kept.
proof fn lemma_drop_none(table: Seq<CpuIdEntry>)
    ensures
        table.filter(outside_brand(0)) == table,
    decreases table.len(),
{
    reveal(Seq::filter);
    if table.len() > 0 {
        lemma_drop_none(table.drop_last());
        assert(table.drop_last().push(table.last()) =~= table);
    } else {
        assert(table.filter(outside_brand(0)) =~= table);
    }
}

/// The brand entries before the `n`-th are none of the `n`-th leaf.
proof fn lemma_earlier_entries_stay(bytes: Seq<u8>, k: int, n: int)
    requires
        0 <= k <= n < 3,
    ensures
        brand_entries(bytes).take(k).filter(other_leaf((FIRST_BRAND_LEAF + n) as u32))
            == brand_entries(bytes).take(k),
    decreases k,
{
    reveal(Seq::filter);
    let entries = brand_entries(bytes);
    if k > 0 {
        lemma_earlier_entries_stay(bytes, k - 1, n);
        assert(entries.take(k).drop_last() =~= entries.take(k - 1));
        assert(entries.take(k - 1).push(entries[k - 1]) =~= entries.take(k));
    } else {
        assert(entries.take(0).filter(other_leaf((FIRST_BRAND_LEAF + n) as u32)) =~= entries.take(
            0,
        ));
    }
}

/// Drops the entries of a leaf.
fn remove_leaf(cpuid: &mut Vec<CpuIdEntry>, function: u32)
    ensures
        final(cpuid)@ == old(cpuid)@.filter(other_leaf(function)),
{
    let ghost table = cpuid@;
    let mut kept: Vec<CpuIdEntry> = Vec::new();
    let mut i: usize = 0;
    proof {
        reveal(Seq::filter);
        assert(table.take(0).filter(other_leaf(function)) =~= seq![]);
    }
    while i < cpuid.len()
        invariant
            i <= table.len(),
            cpuid@ == table,
            kept@ == table.take(i as int).filter(other_leaf(function)),
        decreases table.len() - i,
    {
        let entry = cpuid[i];
        proof {
            reveal(Seq::filter);
            assert(table.take(i + 1).drop_last() =~= table.take(i as int));
        }
        if entry.function != function {
            kept.push(entry);
        }
        i = i + 1;
    }
    assert(table.take(i as int) =~= table);
    *cpuid = kept;
}

/// Reads four bytes as a little-endian number.
fn word_at(bytes: &[u8; 48], start: usize) -> (w: u32)
    requires
        start + 4 <= BRAND_LEN,
    ensures
        w == word(bytes@, start as int),
{
    let b0 = bytes[start] as u32;
    let b1 = bytes[start + 1] as u32;
    let b2 = bytes[start + 2] as u32;
    let b3 = bytes[start + 3] as u32;
    proof {
        le::lemma_le_value_4(bytes@.subrange(start as int, start + 4));
    }
    b0 + 0x100 * b1 + 0x1_0000 * b2 + 0x100_0000 * b3
}

/// Makes the guest read `brand` as the processor brand string.
pub fn set_brand_string(cpuid: &mut Vec<CpuIdEntry>, brand: &str)
    requires
        vstd::utf8::encode_utf8(brand@).len() <= BRAND_LEN,
    ensures
        final(cpuid)@ == with_brand(old(cpuid)@, vstd::utf8::encode_utf8(brand@)),
{
    let ghost table = cpuid@;
    let brand = brand.as_bytes();
    let mut bytes: [u8; 48] = [0x20u8; 48];
    let mut i: usize = 0;
    while i < brand.len()
        invariant
            i <= brand@.len() <= BRAND_LEN,
            forall|j: int|
                0 <= j < BRAND_LEN ==> (#[trigger] bytes@[j]) == if j < i {
                    brand@[j]
                } else {
                    0x20
                },
        decreases brand@.len() - i,
    {
        bytes[i] = brand[i];
        i = i + 1;
    }
    assert(bytes@ =~= padded(brand@));
    let mut n: usize = 0;
    proof {
        lemma_drop_none(table);
        assert(table + brand_entries(bytes@).take(0) =~= table);
    }
    while n < 3
        invariant
            n <= 3,
            cpuid@ == table.filter(outside_brand(n as int)) + brand_entries(bytes@).take(n as int),
        decreases 3 - n,
    {
        let function: u32 = FIRST_BRAND_LEAF + n as u32;
        proof {
            Seq::filter_distributes_over_add(
                table.filter(outside_brand(n as int)),
                brand_entries(bytes@).take(n as int),
                other_leaf(function),
            );
            lemma_drop_next(table, n as int);
            lemma_earlier_entries_stay(bytes@, n as int, n as int);
        }
        remove_leaf(cpuid, function);
        let start = n * 16;
        cpuid.push(
            CpuIdEntry {
                function,
                index: 0,
                flags: CPUID_FLAG_EXACT_EAX | CPUID_FLAG_EXACT_EBX | CPUID_FLAG_EXACT_ECX
                    | CPUID_FLAG_EXACT_EDX,
                eax: word_at(&bytes, start),
                ebx: word_at(&bytes, start + 4),
                ecx: word_at(&bytes, start + 8),
                edx: word_at(&bytes, start + 12),
            },
        );
        proof {
            let entries = brand_entries(bytes@);
            assert(cpuid@ =~= table.filter(outside_brand(n + 1)) + entries.take(n + 1));
        }
        n = n + 1;
    }
    assert(brand_entries(bytes@).take(3) =~= brand_entries(bytes@));
}

} // verus!
