//! Byte-level predicates and searches shared by the parsers of this crate.
use vstd::prelude::*;

verus! {

pub const DIGIT_0: u8 = 48;
pub const DIGIT_9: u8 = 57;
pub const LOWER_A: u8 = 97;
pub const LOWER_F: u8 = 102;
pub const LOWER_Z: u8 = 122;
pub const UPPER_A: u8 = 65;
pub const UPPER_Z: u8 = 90;
pub const DOT: u8 = 46;
pub const UNDERSCORE: u8 = 95;
pub const HYPHEN: u8 = 45;
pub const SLASH: u8 = 47;
pub const COLON: u8 = 58;
pub const AT_SIGN: u8 = 64;
pub const COMMA: u8 = 44;
pub const NEWLINE: u8 = 10;

/// ASCII letters and digits.
pub open spec fn is_alnum(b: u8) -> bool {
    (DIGIT_0 <= b && b <= DIGIT_9) || (LOWER_A <= b && b <= LOWER_Z) || (UPPER_A <= b && b <= UPPER_Z)
}

/// Lower-case hexadecimal digits.
pub open spec fn is_lower_hex(b: u8) -> bool {
    (DIGIT_0 <= b && b <= DIGIT_9) || (LOWER_A <= b && b <= LOWER_F)
}

/// `s` holds the byte `b` somewhere.
pub open spec fn contains_byte(s: Seq<u8>, b: u8) -> bool {
    exists|i: int| 0 <= i < s.len() && s[i] == b
}

/// `p` occurs in `s` starting at position `i`.
pub open spec fn occurs_at(s: Seq<u8>, p: Seq<u8>, i: int) -> bool {
    0 <= i && i + p.len() <= s.len() && s.subrange(i, i + p.len()) == p
}

/// The last position at or below `i` where `p` occurs in `s`.
pub open spec fn rfind_from(s: Seq<u8>, p: Seq<u8>, i: int) -> Option<int>
    decreases i + 1,
{
    if i < 0 {
        None
    } else if occurs_at(s, p, i) {
        Some(i)
    } else {
        rfind_from(s, p, i - 1)
    }
}

/// The last position where `p` occurs in `s`.
pub open spec fn rfind(s: Seq<u8>, p: Seq<u8>) -> Option<int> {
    rfind_from(s, p, s.len() - p.len())
}

pub proof fn lemma_rfind_from_occurs(s: Seq<u8>, p: Seq<u8>, i: int)
    ensures
        rfind_from(s, p, i) matches Some(k) ==> occurs_at(s, p, k) && k <= i,
    decreases i + 1,
{
    if i >= 0 && !occurs_at(s, p, i) {
        lemma_rfind_from_occurs(s, p, i - 1);
    }
}

pub open spec fn starts_with(s: Seq<u8>, p: Seq<u8>) -> bool {
    occurs_at(s, p, 0)
}

pub fn byte_is_alnum(b: u8) -> (r: bool)
    ensures
        r == is_alnum(b),
{
    (DIGIT_0 <= b && b <= DIGIT_9) || (LOWER_A <= b && b <= LOWER_Z) || (UPPER_A <= b && b <= UPPER_Z)
}

pub fn byte_is_lower_hex(b: u8) -> (r: bool)
    ensures
        r == is_lower_hex(b),
{
    (DIGIT_0 <= b && b <= DIGIT_9) || (LOWER_A <= b && b <= LOWER_F)
}

/// Whether `p` occurs in `s` at position `i`.
pub fn bytes_occur_at(s: &[u8], p: &[u8], i: usize) -> (r: bool)
    ensures
        r == occurs_at(s@, p@, i as int),
{
    if i > s.len() || p.len() > s.len() - i {
        return false;
    }
    let mut k: usize = 0;
    while k < p.len()
        invariant
            i + p@.len() <= s@.len(),
            s@.len() <= usize::MAX,
            k <= p@.len(),
            forall|j: int| 0 <= j < k ==> s@[i + j] == p@[j],
        decreases p@.len() - k,
    {
        if s[i + k] != p[k] {
            assert(s@.subrange(i as int, i + p@.len())[k as int] != p@[k as int]);
            return false;
        }
        k = k + 1;
    }
    assert(s@.subrange(i as int, i + p@.len()) =~= p@);
    true
}

/// Whether the byte `b` occurs among the first `n` bytes of `s`.
pub fn prefix_contains_byte(s: &[u8], n: usize, b: u8) -> (r: bool)
    requires
        n <= s@.len(),
    ensures
        r == contains_byte(s@.take(n as int), b),
{
    let mut k: usize = 0;
    while k < n
        invariant
            n <= s@.len(),
            k <= n,
            forall|j: int| 0 <= j < k ==> s@[j] != b,
        decreases n - k,
    {
        if s[k] == b {
            assert(s@.take(n as int)[k as int] == b);
            return true;
        }
        k = k + 1;
    }
    assert forall|j: int| 0 <= j < n implies s@.take(n as int)[j] != b by {}
    false
}

/// The last position where `p` occurs in `s`, searched from the end.
pub fn bytes_rfind(s: &[u8], p: &[u8]) -> (r: Option<usize>)
    ensures
        match r {
            Some(i) => rfind(s@, p@) == Some(i as int) && occurs_at(s@, p@, i as int),
            None => rfind(s@, p@) is None,
        },
{
    if p.len() > s.len() {
        assert(rfind(s@, p@) is None);
        return None;
    }
    let mut i: usize = s.len() - p.len();
    loop
        invariant
            i + p@.len() <= s@.len(),
            rfind(s@, p@) == rfind_from(s@, p@, i as int),
        decreases i,
    {
        if bytes_occur_at(s, p, i) {
            proof {
                lemma_rfind_from_occurs(s@, p@, i as int);
            }
            return Some(i);
        }
        if i == 0 {
            assert(rfind_from(s@, p@, -1) is None);
            return None;
        }
        i = i - 1;
    }
}

} // verus!
