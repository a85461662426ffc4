//! Little-endian integers as byte sequences.
use vm_memory::{ByteValued, Le16, Le32, Le64};
use vstd::prelude::*;

verus! {

/// The number that bytes stand for, the least significant byte first.
pub open spec fn le_value(bytes: Seq<u8>) -> nat
    decreases bytes.len(),
{
    if bytes.len() == 0 {
        0
    } else {
        bytes[0] as nat + 256 * le_value(bytes.drop_first())
    }
}

/// The `width` low bytes of a number, the least significant byte first.
pub open spec fn le_bytes(value: nat, width: nat) -> Seq<u8>
    decreases width,
{
    if width == 0 {
        seq![]
    } else {
        seq![(value % 256) as u8] + le_bytes(value / 256, (width - 1) as nat)
    }
}

/// `le_bytes` has the width that it is asked for.
pub proof fn lemma_le_bytes_len(value: nat, width: nat)
    ensures
        le_bytes(value, width).len() == width,
    decreases width,
{
    if width > 0 {
        lemma_le_bytes_len(value / 256, (width - 1) as nat);
    }
}

/// Writing the number that bytes stand for gives the bytes back.
pub proof fn lemma_le_bytes_of_value(bytes: Seq<u8>)
    ensures
        le_bytes(le_value(bytes), bytes.len()) == bytes,
    decreases bytes.len(),
{
    if bytes.len() > 0 {
        let rest = bytes.drop_first();
        lemma_le_bytes_of_value(rest);
        let v = le_value(bytes);
        assert(v % 256 == bytes[0] as nat);
        assert(v / 256 == le_value(rest));
        assert(le_bytes(v, bytes.len()) =~= seq![bytes[0]] + rest);
        assert(seq![bytes[0]] + rest =~= bytes);
    } else {
        assert(le_bytes(le_value(bytes), bytes.len()) =~= bytes);
    }
}

/// The value of four bytes, written out.
pub proof fn lemma_le_value_4(bytes: Seq<u8>)
    requires
        bytes.len() == 4,
    ensures
        le_value(bytes) == bytes[0] + 0x100 * bytes[1] + 0x1_0000 * bytes[2] + 0x100_0000
            * bytes[3],
{
    reveal_with_fuel(le_value, 5);
    let b1 = bytes.drop_first();
    let b2 = b1.drop_first();
    let b3 = b2.drop_first();
    assert(b3.drop_first().len() == 0);
}

/// The number that the bytes of a number stand for is the number, where it fits.
pub proof fn lemma_le_value_of_bytes(value: nat, width: nat)
    requires
        value < vstd::arithmetic::power::pow(256, width),
    ensures
        le_value(le_bytes(value, width)) == value,
    decreases width,
{
    reveal(vstd::arithmetic::power::pow);
    if width > 0 {
        let below = (width - 1) as nat;
        let p = vstd::arithmetic::power::pow(256, below);
        assert(value / 256 < p) by (nonlinear_arith)
            requires
                value < 256 * p,
        ;
        lemma_le_value_of_bytes(value / 256, below);
        assert(le_bytes(value, width).drop_first() =~= le_bytes(value / 256, below));
    }
}

/// The bytes of a `vm_memory::Le16`: its conversion from `u16` and
/// `ByteValued::as_slice`, which hand out the number's two bytes, the least
/// significant first, on hosts of either endianness.
#[verifier::external_body]
pub(crate) fn le16_bytes(value: u16) -> (bytes: Vec<u8>)
    ensures
        bytes@ == le_bytes(value as nat, 2),
{
    Le16::from(value).as_slice().to_vec()
}

/// The bytes of a `vm_memory::Le32`: its conversion from `u32` and
/// `ByteValued::as_slice`, which hand out the number's four bytes, the least
/// significant first, on hosts of either endianness.
#[verifier::external_body]
pub(crate) fn le32_bytes(value: u32) -> (bytes: Vec<u8>)
    ensures
        bytes@ == le_bytes(value as nat, 4),
{
    Le32::from(value).as_slice().to_vec()
}

/// The bytes of a `vm_memory::Le64`: its conversion from `u64` and
/// `ByteValued::as_slice`, which hand out the number's eight bytes, the least
/// significant first, on hosts of either endianness.
#[verifier::external_body]
pub(crate) fn le64_bytes(value: u64) -> (bytes: Vec<u8>)
    ensures
        bytes@ == le_bytes(value as nat, 8),
{
    Le64::from(value).as_slice().to_vec()
}

/// The number in a `vm_memory::Le16` whose two bytes are given, through
/// `ByteValued::as_mut_slice` and `Le16::to_native`: the first byte is the least
/// significant one, on hosts of either endianness.
#[verifier::external_body]
pub(crate) fn le16_value(bytes: [u8; 2]) -> (value: u16)
    ensures
        value as nat == le_value(bytes@),
{
    let mut value = Le16::default();
    value.as_mut_slice().copy_from_slice(&bytes);
    value.to_native()
}

} // verus!
