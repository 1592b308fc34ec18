//! Which web pages may read the data plane.

use vstd::prelude::*;
use vstd::utf8::*;

use crate::infra::spotify_retry;
use crate::text;

verus! {

/// The origin is one of the site's own, or a local development server's.
pub open spec fn allowed(origin: Seq<char>) -> bool {
    ||| origin == "https://yudhyapw.com"@
    ||| origin == "https://www.yudhyapw.com"@
    ||| text::has_prefix(origin, "http://127.0.0.1:"@)
    ||| text::has_prefix(origin, "http://localhost:"@)
}

/// The methods that pages may use on the data plane.
pub fn allowed_methods() -> (methods: Vec<&'static str>)
    ensures
        methods@.map_values(|m: &'static str| m@) == seq!["GET"@],
{
    let mut methods: Vec<&'static str> = Vec::new();
    methods.push("GET");
    assert(methods@.map_values(|m: &'static str| m@) =~= seq!["GET"@]);
    methods
}

/// The text of ASCII bytes.
pub open spec fn ascii_text(bytes: Seq<u8>) -> Seq<char> {
    bytes.map_values(|b: u8| b as char)
}

/// The bytes of an `Origin` header are visible text, and the origin is
/// allowed.
pub open spec fn header_allowed(bytes: Seq<u8>) -> bool {
    &&& forall|i: int| 0 <= i < bytes.len() ==> spotify_retry::visible(#[trigger] bytes[i])
    &&& allowed(ascii_text(bytes))
}

fn bytes_start_with(bytes: &[u8], prefix: &str) -> (yes: bool)
    requires
        is_ascii_chars(prefix@),
    ensures
        yes == text::has_prefix(ascii_text(bytes@), prefix@),
{
    let wanted: &[u8] = prefix.as_bytes();
    proof {
        is_ascii_chars_encode_utf8(prefix@);
    }
    let n: usize = wanted.len();
    if n > bytes.len() {
        return false;
    }
    let mut i: usize = 0;
    while i < n
        invariant
            i <= n <= bytes@.len(),
            n == wanted@.len() == prefix@.len(),
            is_ascii_chars(prefix@),
            forall|k: int| 0 <= k < n ==> #[trigger] wanted@[k] == prefix@[k] as u8,
            forall|k: int| 0 <= k < i ==> #[trigger] ascii_text(bytes@)[k] == prefix@[k],
        decreases n - i,
    {
        assert('\0' <= prefix@[i as int] <= '\u{7f}');
        if bytes[i] != wanted[i] {
            proof {
                if text::has_prefix(ascii_text(bytes@), prefix@) {
                    assert(ascii_text(bytes@).take(n as int)[i as int] == prefix@[i as int]);
                    assert(bytes@[i as int] as char == prefix@[i as int]);
                }
            }
            return false;
        }
        i += 1;
    }
    assert(ascii_text(bytes@).take(n as int) =~= prefix@);
    true
}

fn bytes_equal(bytes: &[u8], s: &str) -> (yes: bool)
    requires
        is_ascii_chars(s@),
    ensures
        yes == (ascii_text(bytes@) == s@),
{
    proof {
        is_ascii_chars_encode_utf8(s@);
    }
    let yes = bytes.len() == s.as_bytes().len() && bytes_start_with(bytes, s);
    proof {
        let t = ascii_text(bytes@);
        assert(t.take(t.len() as int) =~= t);
    }
    yes
}

/// Whether pages that send this `Origin` header may read the data plane. A
/// header that is not visible ASCII text is refused.
pub fn origin_header_allowed(origin: &[u8]) -> (yes: bool)
    ensures
        yes == header_allowed(origin@),
{
    let mut i: usize = 0;
    while i < origin.len()
        invariant
            i <= origin@.len(),
            forall|k: int| 0 <= k < i ==> spotify_retry::visible(#[trigger] origin@[k]),
        decreases origin@.len() - i,
    {
        let b: u8 = origin[i];
        if !((32 <= b && b < 127) || b == 9) {
            assert(!spotify_retry::visible(origin@[i as int]));
            return false;
        }
        i += 1;
    }
    proof {
        reveal_strlit("https://yudhyapw.com");
        reveal_strlit("https://www.yudhyapw.com");
        reveal_strlit("http://127.0.0.1:");
        reveal_strlit("http://localhost:");
    }
    bytes_equal(origin, "https://yudhyapw.com") || bytes_equal(origin, "https://www.yudhyapw.com")
        || bytes_start_with(origin, "http://127.0.0.1:") || bytes_start_with(
        origin,
        "http://localhost:",
    )
}

} // verus!
