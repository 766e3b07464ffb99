//! Conversions between strings and bytes, and lower-case hexadecimal encoding.
use vstd::prelude::*;
use vstd::utf8::{decode_utf8, encode_utf8, valid_utf8};

use crate::bytes::{DIGIT_0, LOWER_A};

verus! {

/// The UTF-8 bytes of a string.
pub open spec fn utf8_of(s: Seq<char>) -> Seq<u8> {
    encode_utf8(s)
}

/// The bytes of a string, read through `str::as_bytes`.
pub fn string_bytes(s: &String) -> (r: &[u8])
    ensures
        r@ == utf8_of(s@),
{
    s.as_str().as_bytes()
}

/// Calls `String::from_utf8`: it succeeds exactly on valid UTF-8 and then
/// holds the decoded characters; the rejected bytes are dropped.
#[verifier::external_body]
pub(crate) fn string_from_utf8(bytes: Vec<u8>) -> (r: Option<String>)
    ensures
        r is Some <==> valid_utf8(bytes@),
        r matches Some(s) ==> s@ == decode_utf8(bytes@),
{
    String::from_utf8(bytes).ok()
}

/// Unicode's White_Space characters, which `char::is_whitespace` reports.
pub open spec fn is_unicode_whitespace(c: char) -> bool {
    let v = c as u32;
    ||| 0x9 <= v <= 0xd
    ||| v == 0x20
    ||| v == 0x85
    ||| v == 0xa0
    ||| v == 0x1680
    ||| 0x2000 <= v <= 0x200a
    ||| v == 0x2028
    ||| v == 0x2029
    ||| v == 0x202f
    ||| v == 0x205f
    ||| v == 0x3000
}

/// `s` without its leading whitespace.
pub open spec fn trim_start(s: Seq<char>) -> Seq<char>
    decreases s.len(),
{
    if s.len() > 0 && is_unicode_whitespace(s[0]) {
        trim_start(s.drop_first())
    } else {
        s
    }
}

/// `s` without its trailing whitespace.
pub open spec fn trim_end(s: Seq<char>) -> Seq<char>
    decreases s.len(),
{
    if s.len() > 0 && is_unicode_whitespace(s.last()) {
        trim_end(s.drop_last())
    } else {
        s
    }
}

/// `s` without leading and trailing whitespace.
pub open spec fn trimmed(s: Seq<char>) -> Seq<char> {
    trim_end(trim_start(s))
}

/// Calls `str::trim`, which, as std documents, removes leading and trailing
/// whitespace as Unicode's White_Space property defines it.
#[verifier::external_body]
pub(crate) fn str_trim(s: &str) -> (r: &str)
    ensures
        r@ == trimmed(s@),
{
    s.trim()
}

/// Copies a string slice into an owned `String` through `str::to_owned`.
pub fn owned(s: &str) -> (r: String)
    ensures
        r@ == s@,
{
    s.to_owned()
}

/// The lower-case hexadecimal digit for a value below sixteen.
pub open spec fn hex_digit(v: int) -> u8 {
    if v < 10 {
        (DIGIT_0 + v) as u8
    } else {
        (LOWER_A + v - 10) as u8
    }
}

/// Two lower-case hexadecimal digits per byte, high nibble first.
pub open spec fn hex_bytes(v: Seq<u8>) -> Seq<u8>
    decreases v.len(),
{
    if v.len() == 0 {
        Seq::empty()
    } else {
        hex_bytes(v.drop_last()).push(hex_digit(v.last() as int / 16)).push(hex_digit(v.last() as int % 16))
    }
}

pub proof fn lemma_hex_bytes_len(v: Seq<u8>)
    ensures
        hex_bytes(v).len() == 2 * v.len(),
    decreases v.len(),
{
    if v.len() > 0 {
        lemma_hex_bytes_len(v.drop_last());
    }
}

fn hex_digit_exec(v: u8) -> (r: u8)
    requires
        v < 16,
    ensures
        r == hex_digit(v as int),
{
    if v < 10 {
        DIGIT_0 + v
    } else {
        LOWER_A + v - 10
    }
}

/// Lower-case hexadecimal bytes of `value`.
pub fn hex_encode_bytes(value: &[u8]) -> (r: Vec<u8>)
    ensures
        r@ == hex_bytes(value@),
{
    let mut out: Vec<u8> = Vec::new();
    let mut i: usize = 0;
    while i < value.len()
        invariant
            i <= value@.len(),
            out@ == hex_bytes(value@.take(i as int)),
        decreases value@.len() - i,
    {
        let b = value[i];
        out.push(hex_digit_exec(b / 16));
        out.push(hex_digit_exec(b % 16));
        assert(value@.take(i + 1).drop_last() =~= value@.take(i as int));
        i = i + 1;
    }
    assert(value@.take(value@.len() as int) =~= value@);
    out
}

pub proof fn lemma_hex_bytes_ascii(v: Seq<u8>)
    ensures
        forall|i: int| 0 <= i < hex_bytes(v).len() ==> #[trigger] hex_bytes(v)[i] < 128,
    decreases v.len(),
{
    if v.len() > 0 {
        lemma_hex_bytes_ascii(v.drop_last());
        let prev = hex_bytes(v.drop_last());
        let h = v.last() as int / 16;
        let l = v.last() as int % 16;
        assert(hex_digit(h) < 128);
        assert(hex_digit(l) < 128);
        assert(hex_bytes(v) == prev.push(hex_digit(h)).push(hex_digit(l)));
    }
}

/// Lower-case hexadecimal encoding of `value` as a string.
pub fn hex(value: &[u8]) -> (r: String)
    ensures
        utf8_of(r@) == hex_bytes(value@),
{
    let encoded = hex_encode_bytes(value);
    proof {
        lemma_hex_bytes_ascii(value@);
        crate::text::lemma_ascii_valid_utf8(encoded@);
    }
    match string_from_utf8(encoded) {
        Some(s) => {
            proof {
                vstd::utf8::decode_utf8_encode_utf8(hex_bytes(value@));
            }
            s
        },
        None => {
            proof {
                assert(false);
            }
            String::new()
        },
    }
}

/// Every sequence of ASCII bytes is valid UTF-8.
pub proof fn lemma_ascii_valid_utf8(v: Seq<u8>)
    requires
        forall|i: int| 0 <= i < v.len() ==> #[trigger] v[i] < 128,
    ensures
        valid_utf8(v),
{
    assert(v.subrange(0, 0) =~= Seq::<u8>::empty());
    assert(vstd::utf8::partial_valid_utf8(v, 0));
    assert forall|i: int| 0 <= 0 <= i < v.len() <= v.len() implies #[trigger] vstd::utf8::is_leading_byte_width_1(v[i]) by {
        assert(v[i] < 128);
    }
    vstd::utf8::partial_valid_utf8_extend_ascii_block(v, 0, v.len() as int);
    assert(v.subrange(0, v.len() as int) =~= v);
}

} // verus!

verus! {

/// The bytes of a string slice as an owned vector.
pub fn str_to_vec(s: &str) -> (r: Vec<u8>)
    ensures
        r@ == utf8_of(s@),
{
    vstd::slice::slice_to_vec(s.as_bytes())
}

/// Whether two byte slices are equal.
pub fn bytes_equal(a: &[u8], b: &[u8]) -> (r: bool)
    ensures
        r == (a@ == b@),
{
    if a.len() != b.len() {
        return false;
    }
    let r = crate::bytes::bytes_occur_at(a, b, 0);
    assert(a@.subrange(0, b@.len() as int) =~= a@);
    r
}

/// Decodes a UTF-8 field into a string, or `None` when it is not UTF-8.
pub fn field_to_string(field: &[u8]) -> (r: Option<String>)
    ensures
        r is Some <==> valid_utf8(field@),
        r matches Some(s) ==> utf8_of(s@) == field@,
{
    let owned = vstd::slice::slice_to_vec(field);
    let r = string_from_utf8(owned);
    proof {
        if valid_utf8(field@) {
            vstd::utf8::decode_utf8_encode_utf8(field@);
        }
    }
    r
}

} // verus!

verus! {

pub proof fn lemma_utf8_of_concat(a: Seq<char>, b: Seq<char>)
    ensures
        utf8_of(a + b) == utf8_of(a) + utf8_of(b),
    decreases a.len(),
{
    if a.len() == 0 {
        assert(a + b =~= b);
        assert(utf8_of(a) =~= Seq::<u8>::empty());
        assert(utf8_of(a) + utf8_of(b) =~= utf8_of(b));
    } else {
        lemma_utf8_of_concat(a.drop_first(), b);
        assert((a + b).drop_first() =~= a.drop_first() + b);
        assert((a + b)[0] == a[0]);
        assert(utf8_of(a + b) =~= utf8_of(a) + utf8_of(b));
    }
}

/// `a` followed by `b`.
pub fn concat(a: &str, b: &str) -> (r: String)
    ensures
        r@ == a@ + b@,
{
    let mut bytes = str_to_vec(a);
    bytes.extend_from_slice(b.as_bytes());
    assert(bytes@ =~= utf8_of(a@) + utf8_of(b@));
    proof {
        lemma_utf8_of_concat(a@, b@);
        vstd::utf8::encode_utf8_valid_utf8(a@ + b@);
        vstd::utf8::encode_utf8_decode_utf8(a@ + b@);
    }
    match string_from_utf8(bytes) {
        Some(s) => s,
        None => {
            assert(false);
            String::new()
        },
    }
}

} // verus!

verus! {

/// The decimal digits of `n`, without leading zeros.
pub open spec fn decimal(n: nat) -> Seq<char>
    decreases n,
{
    if n < 10 {
        seq![(48 + n) as char]
    } else {
        decimal(n / 10).push((48 + n % 10) as char)
    }
}

/// The decimal representation of a byte value.
pub fn decimal_u8(n: u8) -> (r: String)
    ensures
        r@ == decimal(n as nat),
{
    let mut digits: Vec<u8> = Vec::new();
    if n >= 100 {
        digits.push(48 + n / 100);
    }
    if n >= 10 {
        digits.push(48 + (n / 10) % 10);
    }
    digits.push(48 + n % 10);
    proof {
        lemma_ascii_valid_utf8(digits@);
        vstd::utf8::decode_utf8_encode_utf8(digits@);
        lemma_ascii_decode(digits@);
        if n >= 100 {
            assert(decimal((n / 100) as nat) == seq![(48 + n / 100) as char]);
            assert(decimal((n / 10) as nat) == decimal((n / 100) as nat).push((48 + (n / 10) % 10) as char));
        } else if n >= 10 {
            assert(decimal((n / 10) as nat) == seq![(48 + n / 10) as char]);
        }
    }
    match string_from_utf8(digits) {
        Some(s) => s,
        None => {
            assert(false);
            String::new()
        },
    }
}

/// Decoding ASCII bytes gives one character per byte.
pub proof fn lemma_ascii_decode(v: Seq<u8>)
    requires
        forall|i: int| 0 <= i < v.len() ==> #[trigger] v[i] < 128,
    ensures
        decode_utf8(v) == v.map_values(|b: u8| b as char),
    decreases v.len(),
{
    lemma_ascii_valid_utf8(v);
    if v.len() > 0 {
        let rest = v.drop_first();
        assert forall|i: int| 0 <= i < rest.len() implies #[trigger] rest[i] < 128 by {
            assert(rest[i] == v[i + 1]);
        }
        lemma_ascii_decode(rest);
        let b = v[0];
        assert(b & 0x7F == b) by (bit_vector)
            requires
                b < 128,
        ;
        assert(vstd::utf8::decode_first_scalar(v) == b as u32);
        assert(vstd::utf8::pop_first_scalar(v) =~= rest);
        assert(decode_utf8(v) =~= v.map_values(|b: u8| b as char));
    }
}

} // verus!
