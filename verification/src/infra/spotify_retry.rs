//! Retry after `429 Too Many Requests`: once, after the wait that the
//! server asks for, within limits.

use vstd::prelude::*;

use crate::time::Duration;

verus! {

/// The status `Too Many Requests`.
pub const TOO_MANY_REQUESTS: u16 = 429;

/// The longest wait, in seconds.
pub const CAP_SECS: u64 = 60;

/// The wait where the server names none, in seconds.
pub const DEFAULT_WAIT_SECS: u64 = 1;

/// A byte that a header's text may hold: printable ASCII or a tab.
pub open spec fn visible(b: u8) -> bool {
    32 <= b < 127 || b == 9
}

pub open spec fn blank(b: u8) -> bool {
    b == 32 || b == 9
}

pub open spec fn trim_start(s: Seq<u8>) -> Seq<u8>
    decreases s.len(),
{
    if s.len() > 0 && blank(s[0]) {
        trim_start(s.skip(1))
    } else {
        s
    }
}

pub open spec fn trim_end(s: Seq<u8>) -> Seq<u8>
    decreases s.len(),
{
    if s.len() > 0 && blank(s.last()) {
        trim_end(s.drop_last())
    } else {
        s
    }
}

/// The text is one or more decimal digits.
pub open spec fn is_digits(s: Seq<u8>) -> bool {
    s.len() > 0 && forall|i: int| 0 <= i < s.len() ==> 48 <= #[trigger] s[i] <= 57
}

/// The number that decimal digits write.
pub open spec fn digits_value(s: Seq<u8>) -> nat
    decreases s.len(),
{
    if s.len() == 0 {
        0
    } else {
        digits_value(s.drop_last()) * 10 + (s.last() - 48) as nat
    }
}

/// The text without a leading plus sign.
pub open spec fn unsigned(s: Seq<u8>) -> Seq<u8> {
    if s.len() > 0 && s[0] == 43 {
        s.skip(1)
    } else {
        s
    }
}

/// The seconds that a `Retry-After` header names: a whole positive number
/// of at most `i64::MAX`, with blanks around it allowed. None for anything
/// else, zero and negative numbers among it.
pub open spec fn delta_seconds(header: Seq<u8>) -> Option<nat> {
    let digits = unsigned(trim_end(trim_start(header)));
    if (forall|i: int| 0 <= i < header.len() ==> visible(#[trigger] header[i])) && is_digits(digits)
        && 1 <= digits_value(digits) <= i64::MAX {
        Some(digits_value(digits))
    } else {
        None
    }
}

proof fn lemma_trim_start(s: Seq<u8>, from: int)
    requires
        0 <= from <= s.len(),
        forall|i: int| 0 <= i < from ==> blank(#[trigger] s[i]),
        from < s.len() ==> !blank(s[from]),
    ensures
        trim_start(s) == s.skip(from),
    decreases s.len(),
{
    if from > 0 {
        assert(blank(s[0]));
        assert forall|i: int| 0 <= i < from - 1 implies blank(#[trigger] s.skip(1)[i]) by {
            assert(s.skip(1)[i] == s[i + 1]);
        }
        lemma_trim_start(s.skip(1), from - 1);
        assert(s.skip(1).skip(from - 1) =~= s.skip(from));
    } else {
        assert(s.skip(0) =~= s);
    }
}

proof fn lemma_trim_end(s: Seq<u8>, to: int)
    requires
        0 <= to <= s.len(),
        forall|i: int| to <= i < s.len() ==> blank(#[trigger] s[i]),
        to > 0 ==> !blank(s[to - 1]),
    ensures
        trim_end(s) == s.take(to),
    decreases s.len(),
{
    if to < s.len() {
        assert(blank(s.last()));
        assert forall|i: int| to <= i < s.drop_last().len() implies blank(
            #[trigger] s.drop_last()[i],
        ) by {
            assert(s.drop_last()[i] == s[i]);
        }
        lemma_trim_end(s.drop_last(), to);
        assert(s.drop_last().take(to) =~= s.take(to));
    } else {
        assert(s.take(to) =~= s);
    }
}

/// More digits never make a smaller number.
proof fn lemma_value_grows(s: Seq<u8>, n: int)
    requires
        0 <= n <= s.len(),
        is_digits(s),
    ensures
        digits_value(s.take(n)) <= digits_value(s),
    decreases s.len() - n,
{
    if n < s.len() {
        lemma_value_grows(s, n + 1);
        assert(s.take(n + 1).drop_last() =~= s.take(n));
        assert(48 <= s[n]);
    } else {
        assert(s.take(n) =~= s);
    }
}

/// The number that the bytes from `from` to `to` write, where they are
/// digits and the number lies between one and `i64::MAX`.
fn positive_number(bytes: &[u8], from: usize, to: usize) -> (n: Option<u64>)
    requires
        from <= to <= bytes@.len(),
    ensures
        ({
            let digits = bytes@.subrange(from as int, to as int);
            match n {
                Some(v) => is_digits(digits) && v == digits_value(digits) && 1 <= v <= i64::MAX,
                None => !(is_digits(digits) && 1 <= digits_value(digits) <= i64::MAX),
            }
        }),
{
    let ghost digits = bytes@.subrange(from as int, to as int);
    if from == to {
        return None;
    }
    let mut value: u64 = 0;
    let mut i: usize = from;
    while i < to
        invariant
            from <= i <= to <= bytes@.len(),
            digits == bytes@.subrange(from as int, to as int),
            value == digits_value(digits.take(i - from)),
            value <= i64::MAX,
            forall|k: int| 0 <= k < i - from ==> 48 <= #[trigger] digits[k] <= 57,
        decreases to - i,
    {
        let b: u8 = bytes[i];
        assert(b == digits[i - from]);
        if b < 48 || b > 57 {
            return None;
        }
        proof {
            let longer = digits.take(i - from + 1);
            assert(longer.drop_last() =~= digits.take(i - from));
            assert(longer.last() == b);
        }
        let d: u64 = (b - 48) as u64;
        if value > (i64::MAX as u64 - d) / 10 {
            proof {
                if is_digits(digits) {
                    lemma_value_grows(digits, i - from + 1);
                    assert(value * 10 + d > i64::MAX);
                }
            }
            return None;
        }
        value = value * 10 + d;
        i += 1;
    }
    assert(digits.take(i - from) =~= digits);
    if value == 0 {
        None
    } else {
        Some(value)
    }
}

/// Read a `Retry-After` header as a number of seconds. The date form of the
/// header is not read.
pub fn parse_retry_after_seconds(header: Option<&[u8]>) -> (wait: Option<Duration>)
    ensures
        match wait {
            Some(d) => header is Some && delta_seconds(header->0@) is Some && d@ == delta_seconds(
                header->0@,
            )->0 * 1_000_000_000,
            None => header is None || delta_seconds(header->0@) is None,
        },
{
    let bytes: &[u8] = match header {
        Some(bytes) => bytes,
        None => return None,
    };
    let n: usize = bytes.len();
    let mut i: usize = 0;
    while i < n
        invariant
            i <= n,
            n == bytes@.len(),
            header == Some(bytes),
            forall|k: int| 0 <= k < i ==> visible(#[trigger] bytes@[k]),
        decreases n - i,
    {
        let b: u8 = bytes[i];
        if !((32 <= b && b < 127) || b == 9) {
            assert(!visible(bytes@[i as int]));
            return None;
        }
        i += 1;
    }
    let mut from: usize = 0;
    while from < n && (bytes[from] == 32 || bytes[from] == 9)
        invariant
            from <= n,
            n == bytes@.len(),
            forall|k: int| 0 <= k < from ==> blank(#[trigger] bytes@[k]),
        decreases n - from,
    {
        from += 1;
    }
    let ghost rest = bytes@.skip(from as int);
    proof {
        lemma_trim_start(bytes@, from as int);
    }
    let mut to: usize = n;
    while to > from && (bytes[to - 1] == 32 || bytes[to - 1] == 9)
        invariant
            from <= to <= n,
            n == bytes@.len(),
            rest == bytes@.skip(from as int),
            forall|k: int| to - from <= k < rest.len() ==> blank(#[trigger] rest[k]),
        decreases to,
    {
        to -= 1;
        assert(rest[to - from] == bytes@[to as int]);
    }
    proof {
        if to > from {
            assert(rest[to - from - 1] == bytes@[to - 1]);
        }
        lemma_trim_end(rest, to - from);
        assert(rest.take(to - from) =~= bytes@.subrange(from as int, to as int));
    }
    let ghost trimmed = bytes@.subrange(from as int, to as int);
    let start: usize = if from < to && bytes[from] == 43 {
        from + 1
    } else {
        from
    };
    assert(unsigned(trimmed) =~= bytes@.subrange(start as int, to as int));
    match positive_number(bytes, start, to) {
        Some(secs) => Some(Duration::from_secs(secs)),
        None => None,
    }
}

/// The wait before the retry of a response, in nanoseconds: none where it
/// is not retried. A response to the retry itself never is.
pub open spec fn retry_wait_view(
    retried: bool,
    status: u16,
    header: Option<Seq<u8>>,
) -> Option<nat> {
    if retried || status != TOO_MANY_REQUESTS {
        None
    } else {
        let secs = match header {
            Some(h) => delta_seconds(h),
            None => None,
        };
        match secs {
            Some(n) => Some(
                if n <= CAP_SECS {
                    n * 1_000_000_000
                } else {
                    CAP_SECS as nat * 1_000_000_000
                },
            ),
            None => Some(DEFAULT_WAIT_SECS as nat * 1_000_000_000),
        }
    }
}

/// The bytes of a header that may be missing.
pub open spec fn header_view(header: Option<&[u8]>) -> Option<Seq<u8>> {
    match header {
        Some(h) => Some(h@),
        None => None,
    }
}

/// How long to wait before a response's request is sent again; none where
/// the response is handed on. `retried` says that the request was sent
/// again already.
pub fn retry_wait(retried: bool, status: u16, header: Option<&[u8]>) -> (wait: Option<Duration>)
    ensures
        match wait {
            Some(d) => retry_wait_view(retried, status, header_view(header)) == Some(d@),
            None => retry_wait_view(retried, status, header_view(header)) is None,
        },
{
    if retried || status != TOO_MANY_REQUESTS {
        return None;
    }
    match parse_retry_after_seconds(header) {
        Some(d) => Some(d.min(Duration::from_secs(CAP_SECS))),
        None => Some(Duration::from_secs(DEFAULT_WAIT_SECS)),
    }
}

/// The first response to a request is retried exactly where its status is
/// 429, and the second never. The wait is at least a second and at most a
/// minute, whatever the header says: there is no tight loop.
pub proof fn one_retry_after_a_wait(status: u16, header: Option<Seq<u8>>)
    ensures
        retry_wait_view(false, status, header) is Some <==> status == 429,
        retry_wait_view(false, status, header) matches Some(wait) ==> 1_000_000_000 <= wait
            <= 60_000_000_000,
        retry_wait_view(true, status, header) is None,
{
}

} // verus!
