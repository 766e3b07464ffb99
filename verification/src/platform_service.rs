//! Pieces of the locally hosted platform service: the local password
//! blocklist, the widget resolver of a shell without widgets, and the
//! content-addressed path of a theme stylesheet.
use vstd::prelude::*;

use crate::digest::{sha256, sha256_digest};
use crate::docker_runtime_target::str_equals;
use crate::text::{concat, hex, hex_bytes, utf8_of};
use vstd::utf8::decode_utf8;
use vstd::string::StrSliceExecFns;

verus! {

/// Passwords refused when accounts are provisioned, supplied locally.
#[derive(Clone, Default)]
pub struct LocalPasswordBlocklist(pub Vec<String>);

impl LocalPasswordBlocklist {
    /// Whether the password is on the list.
    pub fn contains(&self, value: &str) -> (r: bool)
        ensures
            r == exists|i: int| 0 <= i < self.0@.len() && (#[trigger] self.0@[i])@ == value@,
    {
        let mut i: usize = 0;
        while i < self.0.len()
            invariant
                i <= self.0@.len(),
                forall|j: int| 0 <= j < i ==> (#[trigger] self.0@[j])@ != value@,
            decreases self.0@.len() - i,
        {
            if str_equals(self.0[i].as_str(), value) {
                return true;
            }
            i = i + 1;
        }
        false
    }
}

/// The widget resolver of a shell that embeds no widgets.
pub struct NoWidgets;

impl NoWidgets {
    /// No widget frame exists for any user or widget.
    pub fn resolve(&self, user_id: &str, app: &str, widget: &str) -> (r: Option<String>)
        ensures
            r is None,
    {
        None
    }
}

/// The content-addressed path of a stylesheet: its SHA-256 digest in
/// lower-case hex, under `/shell/themes/`.
pub open spec fn stylesheet_path_text(css: Seq<char>) -> Seq<char> {
    "/shell/themes/sha256-"@ + decode_utf8(hex_bytes(sha256(utf8_of(css)))) + ".css"@
}

/// The path a stylesheet is served under.
pub fn stylesheet_path(css: &str) -> (r: String)
    ensures
        r@ == stylesheet_path_text(css@),
{
    let digest = sha256_digest(css.as_bytes());
    let digest_hex = hex(digest.as_slice());
    proof {
        vstd::utf8::encode_utf8_decode_utf8(digest_hex@);
    }
    let start = concat("/shell/themes/sha256-", digest_hex.as_str());
    concat(start.as_str(), ".css")
}

/// The longest password that provisioning reads from its input, in bytes.
pub const MAX_PASSWORD_INPUT: usize = 8192;

/// The password that a provisioning input holds: its bytes without one
/// final line ending (`\n` or `\r\n`).
pub open spec fn input_password(input: Seq<u8>) -> Seq<u8> {
    let line = if input.len() > 0 && input.last() == 10 {
        input.drop_last()
    } else {
        input
    };
    if input.len() > 0 && input.last() == 10 && line.len() > 0 && line.last() == 13 {
        line.drop_last()
    } else {
        line
    }
}

/// Reads the password of an account being provisioned from what was piped
/// in: more than the limit is refused (`None`); otherwise one final line
/// ending is dropped.
pub fn provisioning_password(input: &[u8]) -> (r: Option<Vec<u8>>)
    ensures
        input@.len() > MAX_PASSWORD_INPUT ==> r is None,
        input@.len() <= MAX_PASSWORD_INPUT ==> (r matches Some(p) && p@ == input_password(input@)),
{
    if input.len() > MAX_PASSWORD_INPUT {
        return None;
    }
    let mut end = input.len();
    if end > 0 && input[end - 1] == 10 {
        end = end - 1;
        if end > 0 && input[end - 1] == 13 {
            end = end - 1;
        }
    }
    let mut out: Vec<u8> = Vec::new();
    let mut i: usize = 0;
    while i < end
        invariant
            end <= input@.len(),
            i <= end,
            out@ == input@.take(i as int),
        decreases end - i,
    {
        out.push(input[i]);
        proof {
            assert(input@.take(i + 1) =~= input@.take(i as int).push(input@[i as int]));
        }
        i = i + 1;
    }
    proof {
        let line = if input@.len() > 0 && input@.last() == 10 {
            input@.drop_last()
        } else {
            input@
        };
        assert(line =~= input@.take(
            if input@.len() > 0 && input@.last() == 10 {
                input@.len() - 1
            } else {
                input@.len() as int
            },
        ));
        if input@.len() > 0 && input@.last() == 10 && line.len() > 0 && line.last() == 13 {
            assert(line.drop_last() =~= input@.take(end as int));
        } else {
            assert(line =~= input@.take(end as int));
        }
    }
    Some(out)
}

/// `s` without its trailing `/` characters.
pub open spec fn without_trailing_slashes(s: Seq<char>) -> Seq<char>
    decreases s.len(),
{
    if s.len() > 0 && s.last() == '/' {
        without_trailing_slashes(s.drop_last())
    } else {
        s
    }
}

/// A request reaches the service only with exactly one `Host` header whose
/// text is the service's authority without trailing `/`. `hosts` are the
/// request's `Host` headers, each as text where it is visible ASCII.
pub fn host_allowed(hosts: &[Option<String>], authority: &str) -> (r: bool)
    ensures
        r == (hosts@.len() == 1 && hosts@[0] is Some && hosts@[0]->Some_0@
            == without_trailing_slashes(authority@)),
{
    if hosts.len() != 1 {
        return false;
    }
    let mut end: usize = authority.unicode_len();
    assert(without_trailing_slashes(authority@) == without_trailing_slashes(authority@.take(end as int))) by {
        assert(authority@.take(end as int) =~= authority@);
    }
    while end > 0 && authority.get_char(end - 1) == '/'
        invariant
            end <= authority@.len(),
            without_trailing_slashes(authority@) == without_trailing_slashes(authority@.take(end as int)),
        decreases end,
    {
        assert(authority@.take(end as int).drop_last() =~= authority@.take(end - 1));
        end = end - 1;
    }
    let trimmed = authority.substring_char(0, end);
    assert(trimmed@ =~= authority@.take(end as int));
    match &hosts[0] {
        Some(host) => str_equals(host.as_str(), trimmed),
        None => false,
    }
}

} // verus!
