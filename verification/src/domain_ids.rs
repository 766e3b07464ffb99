//! The text forms of the domain identifiers that cross the supervisor's
//! sockets. Every form is ASCII and none can name a parent directory, so an
//! accepted installation ID is safe as a path component.
use vstd::prelude::*;

verus! {

/// `-`
pub const HYPHEN: u8 = 45;

/// `.`
pub const DOT: u8 = 46;

/// `/`
pub const SLASH: u8 = 47;

pub open spec fn is_digit(c: u8) -> bool {
    48 <= c <= 57
}

pub open spec fn is_lower_hex(c: u8) -> bool {
    is_digit(c) || (97 <= c <= 102)
}

/// A lower-case letter, a digit or `-`.
pub open spec fn is_label_byte(c: u8) -> bool {
    (97 <= c <= 122) || is_digit(c) || c == HYPHEN
}

/// A letter of either case, a digit, `.`, `_` or `-`.
pub open spec fn is_path_byte(c: u8) -> bool {
    (65 <= c <= 90) || (97 <= c <= 122) || is_digit(c) || c == DOT || c == 95 || c == HYPHEN
}

/// Visible ASCII: no space and no control character.
pub open spec fn is_token_byte(c: u8) -> bool {
    33 <= c <= 126
}

/// Where a UUID's text carries its hyphens.
pub open spec fn is_uuid_hyphen_position(i: int) -> bool {
    i == 8 || i == 13 || i == 18 || i == 23
}

/// A generated ID (installation, operation) as its canonical text: a UUID
/// in lower-case hyphenated form, `xxxxxxxx-xxxx-xxxx-xxxx-xxxxxxxxxxxx`.
pub open spec fn is_uuid_text(s: Seq<u8>) -> bool {
    &&& s.len() == 36
    &&& forall|i: int|
        0 <= i < 36 ==> if is_uuid_hyphen_position(i) {
            #[trigger] s[i] == HYPHEN
        } else {
            is_lower_hex(s[i])
        }
}

/// A short name (entrypoint, endpoint): lower-case letters, digits and `-`.
pub open spec fn is_simple_id(s: Seq<u8>) -> bool {
    &&& s.len() > 0
    &&& forall|i: int| 0 <= i < s.len() ==> is_label_byte(#[trigger] s[i])
}

/// No two separators stand side by side.
pub open spec fn no_double(s: Seq<u8>, sep: u8) -> bool {
    forall|i: int| 0 <= i < s.len() - 1 ==> !(#[trigger] s[i] == sep && s[i + 1] == sep)
}

/// A reverse-DNS name (app, publisher): at least two non-empty labels of
/// lower-case letters, digits and `-`, joined by `.`.
pub open spec fn is_reverse_dns(s: Seq<u8>) -> bool {
    &&& s.len() > 0
    &&& forall|i: int| 0 <= i < s.len() ==> is_label_byte(#[trigger] s[i]) || s[i] == DOT
    &&& s[0] != DOT
    &&& s[s.len() - 1] != DOT
    &&& no_double(s, DOT)
    &&& exists|i: int| 0 <= i < s.len() && #[trigger] s[i] == DOT
}

/// How often `c` occurs in `s`.
pub open spec fn count_byte(s: Seq<u8>, c: u8) -> nat
    decreases s.len(),
{
    if s.len() == 0 {
        0
    } else {
        count_byte(s.drop_last(), c) + if s.last() == c {
            1nat
        } else {
            0nat
        }
    }
}

/// A component of a version starts at `i`.
pub open spec fn starts_component(s: Seq<u8>, i: int) -> bool {
    i == 0 || s[i - 1] == DOT
}

/// A version `major.minor.patch`: three non-empty decimal numbers without
/// leading zeros.
pub open spec fn is_version(s: Seq<u8>) -> bool {
    &&& s.len() > 0
    &&& forall|i: int| 0 <= i < s.len() ==> is_digit(#[trigger] s[i]) || s[i] == DOT
    &&& s[0] != DOT
    &&& s[s.len() - 1] != DOT
    &&& no_double(s, DOT)
    &&& count_byte(s, DOT) == 2
    &&& forall|i: int|
        0 <= i < s.len() && #[trigger] s[i] == 48 && starts_component(s, i) ==> (i + 1 == s.len()
            || s[i + 1] == DOT)
}

/// A segment of `.` or `..` starts at `i`.
pub open spec fn dot_segment_at(s: Seq<u8>, i: int) -> bool {
    ||| (s[i] == DOT && (i + 1 == s.len() || s[i + 1] == SLASH))
    ||| (s[i] == DOT && i + 1 < s.len() && s[i + 1] == DOT && (i + 2 == s.len() || s[i + 2]
        == SLASH))
}

/// A path segment starts at `i`.
pub open spec fn segment_start(s: Seq<u8>, i: int) -> bool {
    i == 0 || s[i - 1] == SLASH
}

/// A relative path inside a package: non-empty segments of letters, digits,
/// `.`, `_` and `-` joined by `/`, none of them `.` or `..`.
pub open spec fn is_package_path(s: Seq<u8>) -> bool {
    &&& s.len() > 0
    &&& forall|i: int| 0 <= i < s.len() ==> is_path_byte(#[trigger] s[i]) || s[i] == SLASH
    &&& s[0] != SLASH
    &&& s[s.len() - 1] != SLASH
    &&& no_double(s, SLASH)
    &&& forall|i: int| 0 <= i < s.len() && #[trigger] segment_start(s, i) ==> !dot_segment_at(s, i)
}

/// An opaque credential (OIDC client ID or secret): non-empty visible ASCII.
pub open spec fn is_token(s: Seq<u8>) -> bool {
    &&& s.len() > 0
    &&& forall|i: int| 0 <= i < s.len() ==> is_token_byte(#[trigger] s[i])
}

/// Whether `s` is a UUID's canonical text.
pub fn check_uuid(s: &[u8]) -> (r: bool)
    ensures
        r == is_uuid_text(s@),
{
    if s.len() != 36 {
        return false;
    }
    let mut i: usize = 0;
    while i < 36
        invariant
            s@.len() == 36,
            i <= 36,
            forall|j: int|
                0 <= j < i ==> if is_uuid_hyphen_position(j) {
                    #[trigger] s@[j] == HYPHEN
                } else {
                    is_lower_hex(s@[j])
                },
        decreases 36 - i,
    {
        let c = s[i];
        let ok = if i == 8 || i == 13 || i == 18 || i == 23 {
            c == HYPHEN
        } else {
            (48 <= c && c <= 57) || (97 <= c && c <= 102)
        };
        if !ok {
            assert(!(if is_uuid_hyphen_position(i as int) {
                s@[i as int] == HYPHEN
            } else {
                is_lower_hex(s@[i as int])
            }));
            return false;
        }
        i = i + 1;
    }
    true
}

/// Whether `s` is a short name.
pub fn check_simple_id(s: &[u8]) -> (r: bool)
    ensures
        r == is_simple_id(s@),
{
    if s.len() == 0 {
        return false;
    }
    let mut i: usize = 0;
    while i < s.len()
        invariant
            i <= s@.len(),
            forall|j: int| 0 <= j < i ==> is_label_byte(#[trigger] s@[j]),
        decreases s@.len() - i,
    {
        let c = s[i];
        if !((97 <= c && c <= 122) || (48 <= c && c <= 57) || c == HYPHEN) {
            assert(!is_label_byte(s@[i as int]));
            return false;
        }
        i = i + 1;
    }
    true
}

/// Whether `s` is a reverse-DNS name.
pub fn check_reverse_dns(s: &[u8]) -> (r: bool)
    ensures
        r == is_reverse_dns(s@),
{
    let n = s.len();
    if n == 0 || s[0] == DOT || s[n - 1] == DOT {
        return false;
    }
    let mut found = false;
    let mut i: usize = 0;
    while i < n
        invariant
            n == s@.len(),
            n > 0,
            i <= n,
            forall|j: int| 0 <= j < i ==> is_label_byte(#[trigger] s@[j]) || s@[j] == DOT,
            forall|j: int| 0 <= j < i && j < n - 1 ==> !(#[trigger] s@[j] == DOT && s@[j + 1] == DOT),
            found <==> exists|j: int| 0 <= j < i && #[trigger] s@[j] == DOT,
        decreases n - i,
    {
        let c = s[i];
        if !((97 <= c && c <= 122) || (48 <= c && c <= 57) || c == HYPHEN || c == DOT) {
            assert(!(is_label_byte(s@[i as int]) || s@[i as int] == DOT));
            return false;
        }
        if c == DOT && i + 1 < n && s[i + 1] == DOT {
            assert(!no_double(s@, DOT)) by {
                assert(s@[i as int] == DOT && s@[i + 1] == DOT);
            }
            return false;
        }
        if c == DOT {
            found = true;
        }
        i = i + 1;
    }
    if !found {
        assert(!exists|j: int| 0 <= j < s@.len() && #[trigger] s@[j] == DOT);
    }
    found
}

proof fn lemma_count_byte_push(s: Seq<u8>, c: u8, x: u8)
    ensures
        count_byte(s.push(x), c) == count_byte(s, c) + if x == c {
            1nat
        } else {
            0nat
        },
{
    assert(s.push(x).drop_last() =~= s);
}

/// Whether `s` is a version `major.minor.patch`.
pub fn check_version(s: &[u8]) -> (r: bool)
    ensures
        r == is_version(s@),
{
    let n = s.len();
    if n == 0 || s[0] == DOT || s[n - 1] == DOT {
        return false;
    }
    let mut dots: usize = 0;
    let mut i: usize = 0;
    assert(s@.take(0) =~= Seq::<u8>::empty());
    while i < n
        invariant
            n == s@.len(),
            n > 0,
            i <= n,
            dots <= i,
            dots == count_byte(s@.take(i as int), DOT),
            forall|j: int| 0 <= j < i ==> is_digit(#[trigger] s@[j]) || s@[j] == DOT,
            forall|j: int| 0 <= j < i && j < n - 1 ==> !(#[trigger] s@[j] == DOT && s@[j + 1] == DOT),
            forall|j: int|
                0 <= j < i && #[trigger] s@[j] == 48 && starts_component(s@, j) ==> (j + 1 == n
                    || s@[j + 1] == DOT),
        decreases n - i,
    {
        let c = s[i];
        if !((48 <= c && c <= 57) || c == DOT) {
            assert(!(is_digit(s@[i as int]) || s@[i as int] == DOT));
            return false;
        }
        if c == DOT && i + 1 < n && s[i + 1] == DOT {
            assert(!no_double(s@, DOT)) by {
                assert(s@[i as int] == DOT && s@[i + 1] == DOT);
            }
            return false;
        }
        if c == 48 && (i == 0 || s[i - 1] == DOT) && i + 1 < n && s[i + 1] != DOT {
            assert(s@[i as int] == 48 && starts_component(s@, i as int));
            return false;
        }
        proof {
            assert(s@.take(i + 1) =~= s@.take(i as int).push(c));
            lemma_count_byte_push(s@.take(i as int), DOT, c);
        }
        if c == DOT {
            dots = dots + 1;
        }
        i = i + 1;
    }
    assert(s@.take(n as int) =~= s@);
    dots == 2
}

/// Whether `s` is a relative package path.
pub fn check_package_path(s: &[u8]) -> (r: bool)
    ensures
        r == is_package_path(s@),
{
    let n = s.len();
    if n == 0 || s[0] == SLASH || s[n - 1] == SLASH {
        return false;
    }
    let mut i: usize = 0;
    while i < n
        invariant
            n == s@.len(),
            n > 0,
            s@[0] != SLASH,
            i <= n,
            forall|j: int| 0 <= j < i ==> is_path_byte(#[trigger] s@[j]) || s@[j] == SLASH,
            forall|j: int| 0 <= j < i && j < n - 1 ==> !(#[trigger] s@[j] == SLASH && s@[j + 1] == SLASH),
            forall|j: int| 0 <= j < i && #[trigger] segment_start(s@, j) ==> !dot_segment_at(s@, j),
        decreases n - i,
    {
        let c = s[i];
        if !((65 <= c && c <= 90) || (97 <= c && c <= 122) || (48 <= c && c <= 57) || c == DOT
            || c == 95 || c == HYPHEN || c == SLASH) {
            assert(!(is_path_byte(s@[i as int]) || s@[i as int] == SLASH));
            return false;
        }
        if c == SLASH && i + 1 < n && s[i + 1] == SLASH {
            assert(!no_double(s@, SLASH)) by {
                assert(s@[i as int] == SLASH && s@[i + 1] == SLASH);
            }
            return false;
        }
        if i == 0 || s[i - 1] == SLASH {
            let single = c == DOT && (i + 1 == n || s[i + 1] == SLASH);
            let double = c == DOT && i + 1 < n && s[i + 1] == DOT && (i + 2 == n || s[i + 2]
                == SLASH);
            if single || double {
                assert(dot_segment_at(s@, i as int) && segment_start(s@, i as int));
                return false;
            }
        }
        assert(segment_start(s@, i as int) ==> !dot_segment_at(s@, i as int));
        i = i + 1;
    }
    true
}

/// Whether `s` is an opaque credential.
pub fn check_token(s: &[u8]) -> (r: bool)
    ensures
        r == is_token(s@),
{
    if s.len() == 0 {
        return false;
    }
    let mut i: usize = 0;
    while i < s.len()
        invariant
            i <= s@.len(),
            forall|j: int| 0 <= j < i ==> is_token_byte(#[trigger] s@[j]),
        decreases s@.len() - i,
    {
        let c = s[i];
        if !(33 <= c && c <= 126) {
            assert(!is_token_byte(s@[i as int]));
            return false;
        }
        i = i + 1;
    }
    true
}

} // verus!
