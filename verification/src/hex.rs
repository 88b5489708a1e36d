//! Lowercase hexadecimal encoding of byte strings, with a verified decoder.
//!
//! Row keys in the store (`scid_hex`, `chain_hash_hex`) are lowercase hex
//! strings; the encoder here is the single source of those keys.

use vstd::prelude::*;

verus! {

/// The lowercase hex digit character for a nibble value.
pub open spec fn hex_digit(n: int) -> char {
    if n == 0 {
        '0'
    } else if n == 1 {
        '1'
    } else if n == 2 {
        '2'
    } else if n == 3 {
        '3'
    } else if n == 4 {
        '4'
    } else if n == 5 {
        '5'
    } else if n == 6 {
        '6'
    } else if n == 7 {
        '7'
    } else if n == 8 {
        '8'
    } else if n == 9 {
        '9'
    } else if n == 10 {
        'a'
    } else if n == 11 {
        'b'
    } else if n == 12 {
        'c'
    } else if n == 13 {
        'd'
    } else if n == 14 {
        'e'
    } else {
        'f'
    }
}

/// The nibble value of a lowercase hex digit character, or 16 for any other
/// character.
pub open spec fn hex_char_val(c: char) -> int {
    if c == '0' {
        0
    } else if c == '1' {
        1
    } else if c == '2' {
        2
    } else if c == '3' {
        3
    } else if c == '4' {
        4
    } else if c == '5' {
        5
    } else if c == '6' {
        6
    } else if c == '7' {
        7
    } else if c == '8' {
        8
    } else if c == '9' {
        9
    } else if c == 'a' {
        10
    } else if c == 'b' {
        11
    } else if c == 'c' {
        12
    } else if c == 'd' {
        13
    } else if c == 'e' {
        14
    } else if c == 'f' {
        15
    } else {
        16
    }
}

/// A character that can appear in a lowercase hex encoding.
pub open spec fn is_lower_hex(c: char) -> bool {
    hex_char_val(c) < 16
}

/// The lowercase hex encoding of a byte string: two digits per byte,
/// high nibble first.
pub open spec fn hex_of(s: Seq<u8>) -> Seq<char>
    decreases s.len(),
{
    if s.len() == 0 {
        Seq::<char>::empty()
    } else {
        hex_of(s.drop_last()) + seq![
            hex_digit(s.last() as int / 16),
            hex_digit(s.last() as int % 16),
        ]
    }
}

/// The bytes denoted by a hex character string, pairing characters from the
/// end; meaningful when the length is even and every character is a lowercase
/// hex digit.
pub open spec fn bytes_of_hex(s: Seq<char>) -> Seq<u8>
    decreases s.len(),
{
    if s.len() < 2 {
        Seq::<u8>::empty()
    } else {
        bytes_of_hex(s.drop_last().drop_last()).push(
            (hex_char_val(s[s.len() - 2]) * 16 + hex_char_val(s[s.len() - 1])) as u8,
        )
    }
}

/// A hex encoding has exactly two characters per byte.
pub proof fn lemma_hex_of_len(s: Seq<u8>)
    ensures
        hex_of(s).len() == 2 * s.len(),
    decreases s.len(),
{
    if s.len() > 0 {
        lemma_hex_of_len(s.drop_last());
    }
}

/// Every character of a hex encoding is a lowercase hex digit.
pub proof fn lemma_hex_of_lower(s: Seq<u8>)
    ensures
        forall|i: int| 0 <= i < hex_of(s).len() ==> is_lower_hex(#[trigger] hex_of(s)[i]),
    decreases s.len(),
{
    if s.len() > 0 {
        lemma_hex_of_lower(s.drop_last());
        lemma_hex_of_len(s.drop_last());
        assert(hex_char_val(hex_digit(s.last() as int / 16)) < 16);
        assert(hex_char_val(hex_digit(s.last() as int % 16)) < 16);
    }
}

/// Decoding a hex encoding gives back the original bytes.
pub proof fn lemma_hex_round_trip(s: Seq<u8>)
    ensures
        bytes_of_hex(hex_of(s)) == s,
    decreases s.len(),
{
    lemma_hex_of_len(s);
    if s.len() == 0 {
        assert(bytes_of_hex(hex_of(s)) =~= s);
    } else {
        lemma_hex_round_trip(s.drop_last());
        lemma_hex_of_len(s.drop_last());
        let h = hex_of(s);
        let b = s.last();
        assert(h.len() == 2 * s.len());
        assert(h[h.len() - 2] == hex_digit(b as int / 16));
        assert(h[h.len() - 1] == hex_digit(b as int % 16));
        assert(h.drop_last().drop_last() =~= hex_of(s.drop_last()));
        assert(hex_char_val(hex_digit(b as int / 16)) == b as int / 16);
        assert(hex_char_val(hex_digit(b as int % 16)) == b as int % 16);
        assert((b as int / 16) * 16 + b as int % 16 == b as int) by (nonlinear_arith);
        assert(bytes_of_hex(h) =~= s);
    }
}

/// The one-character string for a nibble's lowercase hex digit.
pub(crate) fn hex_digit_str(n: u8) -> (r: &'static str)
    requires
        n < 16,
    ensures
        r@ =~= seq![hex_digit(n as int)],
{
    proof {
        reveal_strlit("0");
        reveal_strlit("1");
        reveal_strlit("2");
        reveal_strlit("3");
        reveal_strlit("4");
        reveal_strlit("5");
        reveal_strlit("6");
        reveal_strlit("7");
        reveal_strlit("8");
        reveal_strlit("9");
        reveal_strlit("a");
        reveal_strlit("b");
        reveal_strlit("c");
        reveal_strlit("d");
        reveal_strlit("e");
        reveal_strlit("f");
    }
    match n {
        0 => "0",
        1 => "1",
        2 => "2",
        3 => "3",
        4 => "4",
        5 => "5",
        6 => "6",
        7 => "7",
        8 => "8",
        9 => "9",
        10 => "a",
        11 => "b",
        12 => "c",
        13 => "d",
        14 => "e",
        _ => "f",
    }
}

/// Encode a byte string as lowercase hex, two digits per byte.
pub fn hex_str(bytes: &[u8]) -> (r: String)
    ensures
        r@ == hex_of(bytes@),
{
    let mut r = String::new();
    let mut i: usize = 0;
    while i < bytes.len()
        invariant
            i <= bytes@.len(),
            r@ == hex_of(bytes@.take(i as int)),
        decreases bytes@.len() - i,
    {
        let b = bytes[i];
        let hi = hex_digit_str(b / 16);
        let lo = hex_digit_str(b % 16);
        r.append(hi);
        r.append(lo);
        proof {
            let t = bytes@.take(i + 1);
            assert(t.drop_last() =~= bytes@.take(i as int));
            assert(t.last() == bytes@[i as int]);
            assert(r@ =~= hex_of(t));
        }
        i += 1;
    }
    proof {
        assert(bytes@.take(bytes@.len() as int) =~= bytes@);
    }
    r
}

/// The nibble value of a lowercase hex digit character, 16 for any other.
fn hex_char_val_exec(c: char) -> (v: u8)
    ensures
        v as int == hex_char_val(c),
{
    match c {
        '0' => 0,
        '1' => 1,
        '2' => 2,
        '3' => 3,
        '4' => 4,
        '5' => 5,
        '6' => 6,
        '7' => 7,
        '8' => 8,
        '9' => 9,
        'a' => 10,
        'b' => 11,
        'c' => 12,
        'd' => 13,
        'e' => 14,
        'f' => 15,
        _ => 16,
    }
}

/// Decode a lowercase hex string. Returns the bytes exactly when the input
/// has even length and consists of lowercase hex digits only; returns `None`
/// otherwise.
pub fn hex_decode(s: &str) -> (r: Option<Vec<u8>>)
    ensures
        r is Some <==> (s@.len() % 2 == 0 && forall|i: int|
            0 <= i < s@.len() ==> is_lower_hex(#[trigger] s@[i])),
        r matches Some(b) ==> b@ == bytes_of_hex(s@),
{
    let n = s.unicode_len();
    if n % 2 != 0 {
        return None;
    }
    let mut out: Vec<u8> = Vec::new();
    let mut i: usize = 0;
    while i < n
        invariant
            n == s@.len(),
            n % 2 == 0,
            i % 2 == 0,
            i <= n,
            forall|j: int| 0 <= j < i ==> is_lower_hex(#[trigger] s@[j]),
            out@ == bytes_of_hex(s@.take(i as int)),
        decreases n - i,
    {
        let hi = hex_char_val_exec(s.get_char(i));
        if hi >= 16 {
            return None;
        }
        let lo = hex_char_val_exec(s.get_char(i + 1));
        if lo >= 16 {
            return None;
        }
        out.push(hi * 16 + lo);
        proof {
            let t = s@.take(i + 2);
            assert(t.drop_last().drop_last() =~= s@.take(i as int));
            assert(t[t.len() - 2] == s@[i as int]);
            assert(t[t.len() - 1] == s@[i + 1]);
            assert(out@ =~= bytes_of_hex(t));
        }
        i += 2;
    }
    proof {
        assert(s@.take(s@.len() as int) =~= s@);
    }
    Some(out)
}

} // verus!
