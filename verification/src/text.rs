//! Lower-case hexadecimal text, as it stands in error messages.
use vstd::prelude::*;

verus! {

/// The character for one hexadecimal digit.
pub open spec fn hex_digit(d: nat) -> char {
    if d < 10 {
        ('0' as int + d) as char
    } else {
        ('a' as int + (d - 10)) as char
    }
}

/// `n` in hexadecimal, without leading zeros.
pub open spec fn hex(n: nat) -> Seq<char>
    decreases n,
{
    if n < 16 {
        seq![hex_digit(n)]
    } else {
        hex(n / 16).push(hex_digit(n % 16))
    }
}

/// The last `width` hexadecimal digits of `n`, leading zeros kept.
pub open spec fn hex_padded(n: nat, width: nat) -> Seq<char>
    decreases width,
{
    if width == 0 {
        seq![]
    } else {
        hex_padded(n / 16, (width - 1) as nat).push(hex_digit(n % 16))
    }
}

/// One hexadecimal digit as text.
fn digit_text(d: u32) -> (s: &'static str)
    requires
        d < 16,
    ensures
        s@ == seq![hex_digit(d as nat)],
{
    proof {
        reveal_strlit("0");
        reveal_strlit("1");
        reveal_strlit("2");
        reveal_strlit("3");
        reveal_strlit("4");
        reveal_strlit("5");
        reveal_strlit("6");
        reveal_strlit("7");
        reveal_strlit("8");
        reveal_strlit("9");
        reveal_strlit("a");
        reveal_strlit("b");
        reveal_strlit("c");
        reveal_strlit("d");
        reveal_strlit("e");
        reveal_strlit("f");
    }
    match d {
        0 => "0",
        1 => "1",
        2 => "2",
        3 => "3",
        4 => "4",
        5 => "5",
        6 => "6",
        7 => "7",
        8 => "8",
        9 => "9",
        10 => "a",
        11 => "b",
        12 => "c",
        13 => "d",
        14 => "e",
        _ => "f",
    }
}

/// Renders `n` in hexadecimal, without leading zeros.
pub fn hex_text(n: u32) -> (s: String)
    ensures
        s@ == hex(n as nat),
    decreases n,
{
    if n < 16 {
        digit_text(n).to_owned()
    } else {
        let mut s = hex_text(n / 16);
        s.append(digit_text(n % 16));
        s
    }
}

/// Renders the last `width` hexadecimal digits of `n`, leading zeros kept.
pub fn hex_text_padded(n: u32, width: usize) -> (s: String)
    ensures
        s@ == hex_padded(n as nat, width as nat),
    decreases width,
{
    if width == 0 {
        String::new()
    } else {
        let mut s = hex_text_padded(n / 16, width - 1);
        s.append(digit_text(n % 16));
        s
    }
}

/// The value of a lower-case hexadecimal digit, where the character is one.
pub open spec fn digit_value(c: char) -> Option<nat> {
    if '0' <= c <= '9' {
        Some((c as int - 0x30) as nat)
    } else if 'a' <= c <= 'f' {
        Some((c as int - 0x61 + 10) as nat)
    } else {
        None
    }
}

/// The number that hexadecimal text stands for, where all of it is digits.
pub open spec fn parsed(s: Seq<char>) -> Option<nat>
    decreases s.len(),
{
    if s.len() == 0 {
        Some(0)
    } else {
        match (parsed(s.drop_last()), digit_value(s.last())) {
            (Some(high), Some(low)) => Some(16 * high + low),
            _ => None,
        }
    }
}

/// Hexadecimal text is made of lower-case digits that stand for the number, and has
/// no leading zero but for zero itself.
pub proof fn law_hex_reads_back(n: nat)
    ensures
        parsed(hex(n)) == Some(n),
        hex(n).len() > 0,
        hex(n)[0] == '0' ==> n == 0 && hex(n).len() == 1,
    decreases n,
{
    if n < 16 {
        assert(hex(n).drop_last() =~= seq![]);
        assert(parsed(hex(n).drop_last()) == Some(0nat));
    } else {
        law_hex_reads_back(n / 16);
        assert(hex(n).drop_last() =~= hex(n / 16));
    }
}

/// Padded hexadecimal text has the width that it is asked for, and is made of
/// lower-case digits that stand for the number as far as they reach.
pub proof fn law_padded_hex_reads_back(n: nat, width: nat)
    ensures
        hex_padded(n, width).len() == width,
        n < vstd::arithmetic::power::pow(16, width) ==> parsed(hex_padded(n, width)) == Some(n),
    decreases width,
{
    reveal(vstd::arithmetic::power::pow);
    if width > 0 {
        let below = (width - 1) as nat;
        law_padded_hex_reads_back(n / 16, below);
        assert(hex_padded(n, width).drop_last() =~= hex_padded(n / 16, below));
        let p = vstd::arithmetic::power::pow(16, below);
        if n < vstd::arithmetic::power::pow(16, width) {
            assert(n / 16 < p) by (nonlinear_arith)
                requires
                    n < 16 * p,
            ;
        }
    }
}

/// Eight digits hold every 32-bit number.
pub proof fn law_eight_digits_hold_a_register(n: u32)
    ensures
        hex_padded(n as nat, 8).len() == 8,
        parsed(hex_padded(n as nat, 8)) == Some(n as nat),
{
    assert(vstd::arithmetic::power::pow(16, 8) == 0x1_0000_0000) by {
        reveal_with_fuel(vstd::arithmetic::power::pow, 9);
    }
    law_padded_hex_reads_back(n as nat, 8);
}

} // verus!
