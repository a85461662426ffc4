//! CPUID tables: what the guest reads for each leaf and subleaf.
use vstd::prelude::*;

verus! {

/// The entry's `index` takes part in selecting it.
pub const CPUID_FLAG_VALID_INDEX: u32 = 1;

/// The guest sees `eax` exactly as it stands in the entry.
pub const CPUID_FLAG_EXACT_EAX: u32 = 1 << 28;

/// The guest sees `ebx` exactly as it stands in the entry.
pub const CPUID_FLAG_EXACT_EBX: u32 = 1 << 29;

/// The guest sees `ecx` exactly as it stands in the entry.
pub const CPUID_FLAG_EXACT_ECX: u32 = 1 << 30;

/// The guest sees `edx` exactly as it stands in the entry.
pub const CPUID_FLAG_EXACT_EDX: u32 = 1 << 31;

/// What CPUID returns for one leaf (`function`) and subleaf (`index`).
#[derive(Clone, Copy, Debug, PartialEq, Eq, Structural)]
pub struct CpuIdEntry {
    pub function: u32,
    pub index: u32,
    pub flags: u32,
    pub eax: u32,
    pub ebx: u32,
    pub ecx: u32,
    pub edx: u32,
}

/// One of the four registers of a CPUID entry.
#[derive(Clone, Copy, Debug, PartialEq, Eq, Structural)]
pub enum Register {
    Eax,
    Ebx,
    Ecx,
    Edx,
}

impl Register {
    /// The flag that fixes this register for the guest.
    pub open spec fn exact_flag(self) -> u32 {
        match self {
            Register::Eax => CPUID_FLAG_EXACT_EAX,
            Register::Ebx => CPUID_FLAG_EXACT_EBX,
            Register::Ecx => CPUID_FLAG_EXACT_ECX,
            Register::Edx => CPUID_FLAG_EXACT_EDX,
        }
    }
}

impl Default for CpuIdEntry {
    fn default() -> (e: Self)
        ensures
            e == (CpuIdEntry { function: 0, index: 0, flags: 0, eax: 0, ebx: 0, ecx: 0, edx: 0 }),
    {
        CpuIdEntry { function: 0, index: 0, flags: 0, eax: 0, ebx: 0, ecx: 0, edx: 0 }
    }
}

impl CpuIdEntry {
    /// The entry describes leaf `function`, subleaf `index`.
    pub open spec fn is_leaf(self, function: u32, index: u32) -> bool {
        self.function == function && self.index == index
    }

    /// The value of one register.
    pub open spec fn register(self, register: Register) -> u32 {
        match register {
            Register::Eax => self.eax,
            Register::Ebx => self.ebx,
            Register::Ecx => self.ecx,
            Register::Edx => self.edx,
        }
    }

    /// The entry with one register fixed to `value` for the guest.
    pub open spec fn fixed(self, register: Register, value: u32) -> CpuIdEntry {
        let flags = self.flags | register.exact_flag();
        match register {
            Register::Eax => CpuIdEntry { eax: value, flags, ..self },
            Register::Ebx => CpuIdEntry { ebx: value, flags, ..self },
            Register::Ecx => CpuIdEntry { ecx: value, flags, ..self },
            Register::Edx => CpuIdEntry { edx: value, flags, ..self },
        }
    }

    /// One register of the entry is fixed to `value` for the guest.
    pub open spec fn is_fixed(self, register: Register, value: u32) -> bool {
        &&& self.register(register) == value
        &&& self.flags & register.exact_flag() != 0
    }

    /// Reads one register.
    pub fn get(&self, register: Register) -> (value: u32)
        ensures
            value == self.register(register),
    {
        match register {
            Register::Eax => self.eax,
            Register::Ebx => self.ebx,
            Register::Ecx => self.ecx,
            Register::Edx => self.edx,
        }
    }

    /// Fixes one register to `value` for the guest.
    pub fn fix(&mut self, register: Register, value: u32)
        ensures
            *final(self) == old(self).fixed(register, value),
    {
        match register {
            Register::Eax => {
                self.eax = value;
                self.flags = self.flags | CPUID_FLAG_EXACT_EAX;
            },
            Register::Ebx => {
                self.ebx = value;
                self.flags = self.flags | CPUID_FLAG_EXACT_EBX;
            },
            Register::Ecx => {
                self.ecx = value;
                self.flags = self.flags | CPUID_FLAG_EXACT_ECX;
            },
            Register::Edx => {
                self.edx = value;
                self.flags = self.flags | CPUID_FLAG_EXACT_EDX;
            },
        }
    }
}

/// `i` is the position of the first entry for a leaf and subleaf.
pub open spec fn is_first(table: Seq<CpuIdEntry>, function: u32, index: u32, i: int) -> bool {
    &&& 0 <= i < table.len()
    &&& table[i].is_leaf(function, index)
    &&& forall|j: int| 0 <= j < i ==> !(#[trigger] table[j]).is_leaf(function, index)
}

/// The position of the first entry for a leaf and subleaf, where there is one.
pub open spec fn position(table: Seq<CpuIdEntry>, function: u32, index: u32) -> Option<int> {
    if exists|i: int| is_first(table, function, index, i) {
        Some(choose|i: int| is_first(table, function, index, i))
    } else {
        None
    }
}

/// The first entry for a leaf and subleaf, where there is one.
pub open spec fn lookup(table: Seq<CpuIdEntry>, function: u32, index: u32) -> Option<CpuIdEntry> {
    match position(table, function, index) {
        Some(i) => Some(table[i]),
        None => None,
    }
}

/// A first position is the position that `position` names.
pub proof fn lemma_position_is_first(table: Seq<CpuIdEntry>, function: u32, index: u32, i: int)
    requires
        is_first(table, function, index, i),
    ensures
        position(table, function, index) == Some(i),
{
    let k = choose|k: int| is_first(table, function, index, k);
    assert(is_first(table, function, index, k));
    if k < i {
        assert(!table[k].is_leaf(function, index));
    }
    if i < k {
        assert(!table[i].is_leaf(function, index));
    }
}

/// A table has a first entry for a leaf and subleaf exactly where it has one at all.
pub proof fn lemma_position_exists(table: Seq<CpuIdEntry>, function: u32, index: u32)
    ensures
        position(table, function, index) is Some <==> exists|i: int|
            0 <= i < table.len() && (#[trigger] table[i]).is_leaf(function, index),
    decreases table.len(),
{
    if table.len() > 0 {
        let front = table.drop_last();
        lemma_position_exists(front, function, index);
        if position(front, function, index) is Some {
            let i = position(front, function, index)->Some_0;
            assert(is_first(front, function, index, i));
            assert(table[i] == front[i]);
            assert forall|j: int| 0 <= j < i implies !(#[trigger] table[j]).is_leaf(
                function,
                index,
            ) by {
                assert(table[j] == front[j]);
            }
            assert(is_first(table, function, index, i));
        } else {
            let last = table.len() - 1;
            assert forall|j: int| 0 <= j < last implies !(#[trigger] table[j]).is_leaf(
                function,
                index,
            ) by {
                assert(table[j] == front[j]);
            }
            if table[last].is_leaf(function, index) {
                assert(is_first(table, function, index, last));
            } else if position(table, function, index) is Some {
                let i = choose|i: int| is_first(table, function, index, i);
                assert(is_first(table, function, index, i));
            }
        }
    } else if position(table, function, index) is Some {
        let i = choose|i: int| is_first(table, function, index, i);
        assert(is_first(table, function, index, i));
    }
}

/// Finds the first entry for a leaf and subleaf.
pub fn find_leaf(cpuid: &[CpuIdEntry], function: u32, index: u32) -> (found: Option<usize>)
    ensures
        match found {
            Some(i) => position(cpuid@, function, index) == Some(i as int),
            None => position(cpuid@, function, index) is None,
        },
{
    let mut i: usize = 0;
    while i < cpuid.len()
        invariant
            i <= cpuid@.len(),
            forall|j: int| 0 <= j < i ==> !(#[trigger] cpuid@[j]).is_leaf(function, index),
        decreases cpuid@.len() - i,
    {
        if cpuid[i].function == function && cpuid[i].index == index {
            proof {
                lemma_position_is_first(cpuid@, function, index, i as int);
            }
            return Some(i);
        }
        i = i + 1;
    }
    proof {
        lemma_position_exists(cpuid@, function, index);
    }
    None
}

/// What is looked up is the first entry with the leaf's and the subleaf's number,
/// and nothing is found exactly where no entry has both.
pub proof fn law_lookup_finds_the_first_entry(
    table: Seq<CpuIdEntry>,
    function: u32,
    index: u32,
    i: int,
)
    ensures
        0 <= i < table.len() && table[i].function == function && table[i].index == index && (forall|
            j: int,
        |
            0 <= j < i ==> (#[trigger] table[j]).function != function || table[j].index != index)
            <==> position(table, function, index) == Some(i),
        lookup(table, function, index) == match position(table, function, index) {
            Some(k) => Some(table[k]),
            None => None::<CpuIdEntry>,
        },
        position(table, function, index) is None <==> forall|j: int|
            0 <= j < table.len() ==> (#[trigger] table[j]).function != function || table[j].index
                != index,
{
    lemma_position_exists(table, function, index);
    if let Some(k) = position(table, function, index) {
        assert(is_first(table, function, index, k));
        assert(table[k].is_leaf(function, index));
    } else {
        assert forall|j: int| 0 <= j < table.len() implies (#[trigger] table[j]).function
            != function || table[j].index != index by {
            assert(!table[j].is_leaf(function, index));
        }
    }
    if 0 <= i < table.len() && table[i].function == function && table[i].index == index && (forall|
        j: int,
    |
        0 <= j < i ==> (#[trigger] table[j]).function != function || table[j].index != index) {
        assert(is_first(table, function, index, i));
        lemma_position_is_first(table, function, index, i);
    }
}

/// Fixing a register changes that register and the flag that fixes it, and nothing
/// else. The four flags are bits of their own, none of them the one that makes the
/// subleaf count.
pub proof fn law_fixing_changes_one_register(e: CpuIdEntry, value: u32)
    ensures
        e.fixed(Register::Eax, value) == (CpuIdEntry {
            eax: value,
            flags: e.flags | CPUID_FLAG_EXACT_EAX,
            ..e
        }),
        e.fixed(Register::Ebx, value) == (CpuIdEntry {
            ebx: value,
            flags: e.flags | CPUID_FLAG_EXACT_EBX,
            ..e
        }),
        e.fixed(Register::Ecx, value) == (CpuIdEntry {
            ecx: value,
            flags: e.flags | CPUID_FLAG_EXACT_ECX,
            ..e
        }),
        e.fixed(Register::Edx, value) == (CpuIdEntry {
            edx: value,
            flags: e.flags | CPUID_FLAG_EXACT_EDX,
            ..e
        }),
        e.register(Register::Eax) == e.eax,
        e.register(Register::Ebx) == e.ebx,
        e.register(Register::Ecx) == e.ecx,
        e.register(Register::Edx) == e.edx,
        CPUID_FLAG_EXACT_EAX == 0x1000_0000,
        CPUID_FLAG_EXACT_EBX == 0x2000_0000,
        CPUID_FLAG_EXACT_ECX == 0x4000_0000,
        CPUID_FLAG_EXACT_EDX == 0x8000_0000,
        CPUID_FLAG_VALID_INDEX == 1,
{
    assert(CPUID_FLAG_EXACT_EAX == 0x1000_0000u32 && CPUID_FLAG_EXACT_EBX == 0x2000_0000u32
        && CPUID_FLAG_EXACT_ECX == 0x4000_0000u32 && CPUID_FLAG_EXACT_EDX == 0x8000_0000u32)
        by (bit_vector);
}

} // verus!
