//! The text form of a 256-bit hash: 64 hexadecimal digits, optionally
//! behind a `0x` prefix, two digits per byte, most significant digit first.

use vstd::prelude::*;

use crate::primitives::H256;

verus! {

broadcast use vstd::array::group_array_axioms;

/// The value of a hexadecimal digit, in either case.
pub open spec fn hex_digit(c: char) -> Option<u8> {
    let n = c as u32;
    if 48 <= n && n <= 57 {
        Some((n - 48) as u8)
    } else if 97 <= n && n <= 102 {
        Some((n - 87) as u8)
    } else if 65 <= n && n <= 70 {
        Some((n - 55) as u8)
    } else {
        None
    }
}

/// The digits of a hash text: the text without its `0x` prefix, if it has one.
pub open spec fn hex_body(s: Seq<char>) -> Seq<char> {
    if s.len() >= 2 && s[0] == '0' && s[1] == 'x' {
        s.skip(2)
    } else {
        s
    }
}

/// The byte that the digits at `2 * i` and `2 * i + 1` of `d` stand for.
pub open spec fn hex_byte(d: Seq<char>, i: int) -> u8 {
    (hex_digit(d[2 * i]).unwrap() * 16 + hex_digit(d[2 * i + 1]).unwrap()) as u8
}

/// The hash that a text stands for, if it is one.
pub open spec fn spec_parse_h256(s: Seq<char>) -> Option<Seq<u8>> {
    let d = hex_body(s);
    if d.len() == 64 && (forall|i: int| 0 <= i < 64 ==> (#[trigger] hex_digit(d[i])) is Some) {
        Some(Seq::new(32, |i: int| hex_byte(d, i)))
    } else {
        None
    }
}

/// The lower-case digit for a value below 16.
pub open spec fn hex_char(v: u8) -> char {
    if v < 10 {
        (v + 48) as char
    } else {
        (v + 87) as char
    }
}

/// The lower-case text of a hash, without prefix.
pub open spec fn spec_hex_text(h: Seq<u8>) -> Seq<char> {
    Seq::new(
        2 * h.len(),
        |i: int|
            if i % 2 == 0 {
                hex_char(h[i / 2] / 16)
            } else {
                hex_char(h[i / 2] % 16)
            },
    )
}

/// The value of one hexadecimal digit.
pub fn hex_digit_value(c: char) -> (v: Option<u8>)
    ensures
        v == hex_digit(c),
{
    let n = c as u32;
    if 48 <= n && n <= 57 {
        Some((n - 48) as u8)
    } else if 97 <= n && n <= 102 {
        Some((n - 87) as u8)
    } else if 65 <= n && n <= 70 {
        Some((n - 55) as u8)
    } else {
        None
    }
}

/// Reads a hash from its text form.
pub fn parse_h256(s: &str) -> (h: Option<H256>)
    ensures
        match h {
            Some(h) => spec_parse_h256(s@) == Some(h@),
            None => spec_parse_h256(s@) is None,
        },
{
    let n = s.unicode_len();
    let start: usize = if n >= 2 && s.get_char(0) == '0' && s.get_char(1) == 'x' {
        2
    } else {
        0
    };
    let ghost d = hex_body(s@);
    assert(d.len() == n - start);
    assert(forall|j: int| 0 <= j < d.len() ==> d[j] == s@[j + start]);
    if n - start != 64 {
        return None;
    }
    let mut out: H256 = [0u8; 32];
    let mut i: usize = 0;
    while i < 32
        invariant
            i <= 32,
            n == s@.len(),
            start + 64 == n,
            d == hex_body(s@),
            d.len() == 64,
            forall|j: int| 0 <= j < d.len() ==> d[j] == s@[j + start],
            out@.len() == 32,
            forall|j: int| 0 <= j < 2 * i ==> (#[trigger] hex_digit(d[j])) is Some,
            forall|j: int| 0 <= j < i ==> out@[j] == hex_byte(d, j),
        decreases 32 - i,
    {
        let hi = match hex_digit_value(s.get_char(start + 2 * i)) {
            Some(v) => v,
            None => {
                assert(hex_digit(d[2 * i as int]) is None);
                return None;
            },
        };
        let lo = match hex_digit_value(s.get_char(start + 2 * i + 1)) {
            Some(v) => v,
            None => {
                assert(hex_digit(d[2 * i + 1]) is None);
                return None;
            },
        };
        assert(hi < 16 && lo < 16);
        out.set(i, hi * 16 + lo);
        assert(out@[i as int] == hex_byte(d, i as int));
        i = i + 1;
    }
    assert(out@ =~= Seq::new(32, |j: int| hex_byte(d, j)));
    Some(out)
}

/// The lower-case text of a hash, with or without the `0x` prefix, reads
/// back as that hash.
pub proof fn lemma_parse_hex_text(h: Seq<u8>)
    requires
        h.len() == 32,
    ensures
        spec_parse_h256(spec_hex_text(h)) == Some(h),
        spec_parse_h256(seq!['0', 'x'] + spec_hex_text(h)) == Some(h),
{
    let t = spec_hex_text(h);
    assert forall|v: u8| v < 16 implies hex_digit(#[trigger] hex_char(v)) == Some(v) by {
        assert(hex_char(v) as u32 == (if v < 10 { v + 48 } else { v + 87 }));
    }
    assert forall|i: int| 0 <= i < 64 implies (#[trigger] hex_digit(t[i])) is Some by {
        assert(h[i / 2] / 16 < 16);
    }
    assert(t[1] != 'x') by {
        assert(hex_char(h[0] % 16) as u32 != 120);
    }
    assert(hex_body(t) == t);
    assert forall|i: int| 0 <= i < 32 implies hex_byte(t, i) == h[i] by {
        assert((2 * i) / 2 == i);
        assert((2 * i + 1) / 2 == i);
        assert((2 * i) % 2 == 0);
        assert((2 * i + 1) % 2 == 1);
    }
    assert(Seq::new(32, |i: int| hex_byte(t, i)) =~= h);
    let p = seq!['0', 'x'] + t;
    assert(hex_body(p) =~= t);
}

} // verus!
