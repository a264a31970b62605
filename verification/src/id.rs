//! Store-generated identifiers and their canonical hex encoding.
//!
//! An identifier is a 96-bit value rendered as exactly 24 lowercase hex
//! digits. Parsing accepts both digit cases and rejects every other
//! string with a client-fault error.

use vstd::prelude::*;
use crate::error::ApiError;

verus! {

/// One more than the largest identifier value: 16 to the 24th power.
pub const ID_LIMIT: u128 = 0x1000000000000000000000000;

/// The numeric value of a hex digit, or -1 for any other character.
pub open spec fn hex_digit_value(c: char) -> int {
    if '0' <= c && c <= '9' {
        c as int - '0' as int
    } else if 'a' <= c && c <= 'f' {
        10 + c as int - 'a' as int
    } else if 'A' <= c && c <= 'F' {
        10 + c as int - 'A' as int
    } else {
        -1
    }
}

pub open spec fn is_hex_digit(c: char) -> bool {
    hex_digit_value(c) >= 0
}

/// A well-formed identifier string: exactly 24 hex digits.
pub open spec fn is_id_hex(s: Seq<char>) -> bool {
    &&& s.len() == 24
    &&& forall|i: int| 0 <= i < s.len() ==> is_hex_digit(#[trigger] s[i])
}

/// The value of a hex digit string, most significant digit first.
pub open spec fn hex_value(s: Seq<char>) -> int
    decreases s.len(),
{
    if s.len() == 0 {
        0
    } else {
        16 * hex_value(s.drop_last()) + hex_digit_value(s.last())
    }
}

/// 16 to the n-th power.
pub open spec fn pow16(n: nat) -> int
    decreases n,
{
    if n == 0 {
        1
    } else {
        16 * pow16((n - 1) as nat)
    }
}

/// The canonical (lowercase) hex digit for a value in 0..16.
pub open spec fn hex_char_of(d: int) -> char {
    if d == 0 { '0' }
    else if d == 1 { '1' }
    else if d == 2 { '2' }
    else if d == 3 { '3' }
    else if d == 4 { '4' }
    else if d == 5 { '5' }
    else if d == 6 { '6' }
    else if d == 7 { '7' }
    else if d == 8 { '8' }
    else if d == 9 { '9' }
    else if d == 10 { 'a' }
    else if d == 11 { 'b' }
    else if d == 12 { 'c' }
    else if d == 13 { 'd' }
    else if d == 14 { 'e' }
    else { 'f' }
}

/// The n-digit canonical hex encoding of v, least significant digit last.
pub open spec fn hex_encoding(v: int, n: nat) -> Seq<char>
    decreases n,
{
    if n == 0 {
        Seq::empty()
    } else {
        hex_encoding(v / 16, (n - 1) as nat).push(hex_char_of(v % 16))
    }
}

pub proof fn lemma_pow16_positive(n: nat)
    ensures
        pow16(n) >= 1,
    decreases n,
{
    if n > 0 {
        lemma_pow16_positive((n - 1) as nat);
    }
}

pub proof fn lemma_pow16_mono(m: nat, n: nat)
    requires
        m <= n,
    ensures
        pow16(m) <= pow16(n),
    decreases n,
{
    if m < n {
        lemma_pow16_mono(m, (n - 1) as nat);
        lemma_pow16_positive((n - 1) as nat);
    }
}

pub proof fn lemma_pow16_24()
    ensures
        pow16(24) == ID_LIMIT as int,
{
    reveal_with_fuel(pow16, 25);
}

pub proof fn lemma_hex_encoding_len(v: int, n: nat)
    ensures
        hex_encoding(v, n).len() == n,
    decreases n,
{
    if n > 0 {
        lemma_hex_encoding_len(v / 16, (n - 1) as nat);
    }
}

/// Every digit of a hex encoding is a hex digit, and for canonical
/// digits the value round-trips.
pub proof fn lemma_hex_char_of_value(d: int)
    requires
        0 <= d < 16,
    ensures
        is_hex_digit(hex_char_of(d)),
        hex_digit_value(hex_char_of(d)) == d,
{
}

pub proof fn lemma_hex_encoding_is_hex(v: int, n: nat)
    requires
        v >= 0,
    ensures
        forall|i: int| 0 <= i < n ==> is_hex_digit(#[trigger] hex_encoding(v, n)[i]),
    decreases n,
{
    lemma_hex_encoding_len(v, n);
    if n > 0 {
        lemma_hex_encoding_is_hex(v / 16, (n - 1) as nat);
        lemma_hex_encoding_len(v / 16, (n - 1) as nat);
        lemma_hex_char_of_value(v % 16);
        assert forall|i: int| 0 <= i < n implies is_hex_digit(#[trigger] hex_encoding(v, n)[i]) by {
            if i < n - 1 {
                assert(hex_encoding(v, n)[i] == hex_encoding(v / 16, (n - 1) as nat)[i]);
            } else {
                assert(hex_encoding(v, n)[i] == hex_char_of(v % 16));
            }
        }
    }
}

/// Decoding inverts encoding for every value the digit count can hold.
pub proof fn lemma_hex_value_encoding(v: int, n: nat)
    requires
        0 <= v < pow16(n),
    ensures
        hex_value(hex_encoding(v, n)) == v,
    decreases n,
{
    if n == 0 {
        assert(v == 0);
    } else {
        lemma_pow16_positive((n - 1) as nat);
        assert(v / 16 < pow16((n - 1) as nat));
        lemma_hex_value_encoding(v / 16, (n - 1) as nat);
        lemma_hex_char_of_value(v % 16);
        let e = hex_encoding(v, n);
        let prev = hex_encoding(v / 16, (n - 1) as nat);
        assert(e == prev.push(hex_char_of(v % 16)));
        assert(e.drop_last() =~= prev);
        assert(e.last() == hex_char_of(v % 16));
    }
}

/// A 24-digit encoding of an in-range value is a well-formed identifier
/// string, and parsing it yields the value back.
pub proof fn lemma_id_round_trip(v: int)
    requires
        0 <= v < ID_LIMIT as int,
    ensures
        is_id_hex(hex_encoding(v, 24)),
        hex_value(hex_encoding(v, 24)) == v,
{
    lemma_pow16_24();
    lemma_hex_encoding_len(v, 24);
    lemma_hex_encoding_is_hex(v, 24);
    lemma_hex_value_encoding(v, 24);
}

/// A store-generated identifier.
#[derive(Clone, Copy, PartialEq, Eq, Structural, Debug)]
pub struct ObjectId {
    value: u128,
}

impl View for ObjectId {
    type V = int;

    closed spec fn view(&self) -> int {
        self.value as int
    }
}

impl ObjectId {
    /// Identifier values fit in 24 hex digits.
    pub open spec fn wf(&self) -> bool {
        0 <= self@ < ID_LIMIT as int
    }

    /// An identifier from a raw value; the repositories generate these.
    pub(crate) fn from_value(value: u128) -> (r: ObjectId)
        requires
            value < ID_LIMIT,
        ensures
            r@ == value as int,
            r.wf(),
    {
        ObjectId { value }
    }

    /// Whether two identifiers carry the same value.
    pub fn equals(&self, other: &ObjectId) -> (r: bool)
        ensures
            r == (self@ == other@),
    {
        self.value == other.value
    }

    /// Parses the canonical 24-hex-digit rendering of an identifier,
    /// accepting both digit cases; any other string is a client fault.
    pub fn parse_str(s: &str) -> (r: Result<ObjectId, ApiError>)
        ensures
            is_id_hex(s@) ==> (r matches Ok(o) && o@ == hex_value(s@) && o.wf()),
            !is_id_hex(s@) ==> (r matches Err(e) && e matches ApiError::BadRequest(m)
                && m@ == "Invalid ID format"@),
    {
        let n = s.unicode_len();
        if n != 24 {
            return Err(ApiError::BadRequest(String::from_str("Invalid ID format")));
        }
        let mut value: u128 = 0;
        let mut i: usize = 0;
        while i < 24
            invariant
                0 <= i <= 24,
                s@.len() == 24,
                forall|j: int| 0 <= j < i ==> is_hex_digit(#[trigger] s@[j]),
                value == hex_value(s@.subrange(0, i as int)),
                value < pow16(i as nat),
            decreases 24 - i,
        {
            let c = s.get_char(i);
            match hex_digit_of_char(c) {
                Some(d) => {
                    proof {
                        lemma_pow16_mono(i as nat, 23);
                        lemma_pow16_24();
                        lemma_pow16_mono((i + 1) as nat, 24);
                        let sub = s@.subrange(0, i + 1);
                        assert(sub.drop_last() =~= s@.subrange(0, i as int));
                        assert(sub.last() == s@[i as int]);
                    }
                    value = value * 16 + d as u128;
                },
                None => {
                    return Err(ApiError::BadRequest(String::from_str("Invalid ID format")));
                },
            }
            i += 1;
        }
        proof {
            assert(s@.subrange(0, 24) =~= s@);
            lemma_pow16_24();
        }
        Ok(ObjectId { value })
    }

    /// Renders the identifier as its canonical 24-hex-digit string.
    pub fn to_hex(&self) -> (r: String)
        requires
            self.wf(),
        ensures
            r@ == hex_encoding(self@, 24),
            is_id_hex(r@),
            hex_value(r@) == self@,
    {
        proof {
            lemma_id_round_trip(self@);
        }
        hex_encode_rec(self.value, 24)
    }
}

/// The digit value of a character, if it is a hex digit.
fn hex_digit_of_char(c: char) -> (r: Option<u8>)
    ensures
        is_hex_digit(c) ==> (r matches Some(d) && d as int == hex_digit_value(c) && d < 16),
        !is_hex_digit(c) ==> r is None,
{
    let u = c as u32;
    if 48 <= u && u <= 57 {
        Some((u - 48) as u8)
    } else if 97 <= u && u <= 102 {
        Some((u - 87) as u8)
    } else if 65 <= u && u <= 70 {
        Some((u - 55) as u8)
    } else {
        None
    }
}

/// A one-character string slice holding the canonical digit for d.
fn hex_char_str(d: u8) -> (r: &'static str)
    requires
        d < 16,
    ensures
        r@ == seq![hex_char_of(d as int)],
{
    proof {
        reveal_strlit("0");
        reveal_strlit("1");
        reveal_strlit("2");
        reveal_strlit("3");
        reveal_strlit("4");
        reveal_strlit("5");
        reveal_strlit("6");
        reveal_strlit("7");
        reveal_strlit("8");
        reveal_strlit("9");
        reveal_strlit("a");
        reveal_strlit("b");
        reveal_strlit("c");
        reveal_strlit("d");
        reveal_strlit("e");
        reveal_strlit("f");
    }
    let r: &'static str = match d {
        0 => "0",
        1 => "1",
        2 => "2",
        3 => "3",
        4 => "4",
        5 => "5",
        6 => "6",
        7 => "7",
        8 => "8",
        9 => "9",
        10 => "a",
        11 => "b",
        12 => "c",
        13 => "d",
        14 => "e",
        _ => "f",
    };
    proof {
        assert(r@ =~= seq![hex_char_of(d as int)]);
    }
    r
}

/// The n-digit encoding of v, built least significant digit first.
fn hex_encode_rec(v: u128, n: usize) -> (r: String)
    ensures
        r@ == hex_encoding(v as int, n as nat),
    decreases n,
{
    if n == 0 {
        String::new()
    } else {
        let mut s = hex_encode_rec(v / 16, n - 1);
        let digit = (v % 16) as u8;
        let piece = hex_char_str(digit);
        s.append(piece);
        proof {
            assert(s@ =~= hex_encoding(v as int, n as nat));
        }
        s
    }
}

} // verus!
