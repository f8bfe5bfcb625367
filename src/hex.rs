//! Fixed-width lowercase hexadecimal rendering of integers and byte lists,
//! in the `0x..` form used by the capture log.

use vstd::prelude::*;
use vstd::string::StringExecFns;

verus! {

/// The lowercase hexadecimal digit for `n` (taken modulo 16).
pub open spec fn hex_char(n: nat) -> char {
    seq!['0', '1', '2', '3', '4', '5', '6', '7', '8', '9', 'a', 'b', 'c', 'd', 'e', 'f'][(n % 16) as int]
}

/// The lowest `width` hexadecimal digits of `v`, most significant first.
pub open spec fn hex_digits(v: nat, width: nat) -> Seq<char>
    decreases width,
{
    if width == 0 {
        Seq::empty()
    } else {
        hex_digits(v / 16, (width - 1) as nat).push(hex_char(v % 16))
    }
}

/// `0x` followed by the lowest `width` hexadecimal digits of `v`.
pub open spec fn prefixed_hex(v: nat, width: nat) -> Seq<char> {
    seq!['0', 'x'] + hex_digits(v, width)
}

/// The bytes of `s`, each as `0x` and two digits, separated by `", "`.
pub open spec fn hex_list(s: Seq<u8>) -> Seq<char>
    decreases s.len(),
{
    if s.len() == 0 {
        Seq::empty()
    } else if s.len() == 1 {
        prefixed_hex(s[0] as nat, 2)
    } else {
        hex_list(s.drop_last()) + seq![',', ' '] + prefixed_hex(s.last() as nat, 2)
    }
}

fn digit_str(n: u64) -> (r: &'static str)
    requires
        n < 16,
    ensures
        r@ == seq![hex_char(n as nat)],
{
    proof {
        reveal_strlit("0");
        reveal_strlit("1");
        reveal_strlit("2");
        reveal_strlit("3");
        reveal_strlit("4");
        reveal_strlit("5");
        reveal_strlit("6");
        reveal_strlit("7");
        reveal_strlit("8");
        reveal_strlit("9");
        reveal_strlit("a");
        reveal_strlit("b");
        reveal_strlit("c");
        reveal_strlit("d");
        reveal_strlit("e");
        reveal_strlit("f");
    }
    match n {
        0 => "0",
        1 => "1",
        2 => "2",
        3 => "3",
        4 => "4",
        5 => "5",
        6 => "6",
        7 => "7",
        8 => "8",
        9 => "9",
        10 => "a",
        11 => "b",
        12 => "c",
        13 => "d",
        14 => "e",
        _ => "f",
    }
}

fn append_digits(s: &mut String, v: u64, width: usize)
    ensures
        final(s)@ == old(s)@ + hex_digits(v as nat, width as nat),
    decreases width,
{
    if width > 0 {
        append_digits(s, v / 16, width - 1);
        s.append(digit_str(v % 16));
        assert(final(s)@ == old(s)@ + hex_digits(v as nat, width as nat));
    } else {
        assert(old(s)@ + Seq::<char>::empty() =~= old(s)@);
    }
}

fn prefixed(v: u64, width: usize) -> (r: String)
    ensures
        r@ == prefixed_hex(v as nat, width as nat),
{
    proof {
        reveal_strlit("0x");
    }
    let mut s = String::from_str("0x");
    append_digits(&mut s, v, width);
    s
}

/// A byte as `0x` and two digits (`0x0a`).
pub fn hb(b: u8) -> (r: String)
    ensures
        r@ == prefixed_hex(b as nat, 2),
{
    prefixed(b as u64, 2)
}

/// A 16-bit word as `0x` and four digits.
pub fn hw(v: u16) -> (r: String)
    ensures
        r@ == prefixed_hex(v as nat, 4),
{
    prefixed(v as u64, 4)
}

/// A 32-bit word as `0x` and eight digits.
pub fn hd(v: u32) -> (r: String)
    ensures
        r@ == prefixed_hex(v as nat, 8),
{
    prefixed(v as u64, 8)
}

/// A 64-bit word as `0x` and sixteen digits.
pub fn hq(v: u64) -> (r: String)
    ensures
        r@ == prefixed_hex(v as nat, 16),
{
    prefixed(v, 16)
}

/// The bytes of `v` as a comma-separated list of two-digit hex values.
pub fn hbs(v: &[u8]) -> (r: String)
    ensures
        r@ == hex_list(v@),
{
    let mut s = String::new();
    let mut i: usize = 0;
    while i < v.len()
        invariant
            0 <= i <= v@.len(),
            s@ == hex_list(v@.subrange(0, i as int)),
        decreases v@.len() - i,
    {
        proof {
            reveal_strlit(", ");
        }
        let ghost before = v@.subrange(0, i as int);
        if i > 0 {
            s.append(", ");
        }
        let item = hb(v[i]);
        s.append(item.as_str());
        proof {
            let after = v@.subrange(0, i as int + 1);
            assert(after.drop_last() =~= before);
            assert(after.last() == v@[i as int]);
            assert(s@ =~= hex_list(after));
        }
        i = i + 1;
    }
    assert(v@.subrange(0, v@.len() as int) =~= v@);
    s
}

/// The bytes of `bytes` as a bracketed, comma-separated hex list.
pub fn format_hex(bytes: &[u8]) -> (r: String)
    ensures
        r@ == seq!['['] + hex_list(bytes@) + seq![']'],
{
    proof {
        reveal_strlit("[");
        reveal_strlit("]");
    }
    let mut s = String::from_str("[");
    let body = hbs(bytes);
    s.append(body.as_str());
    s.append("]");
    s
}

} // verus!
