//! What the notations mean: decimal and hexadecimal digits, joined texts,
//! and the part of a text before a character.

use vstd::prelude::*;

use crate::text::{self, decimal_text, hex_text, join_text, str_eq, text_before};

verus! {

/// The value of a decimal or lower-case hexadecimal digit.
pub open spec fn digit_value(c: char) -> int {
    if '0' <= c <= '9' {
        c as int - '0' as int
    } else {
        c as int - 'a' as int + 10
    }
}

/// The number that decimal digits write.
pub open spec fn decimal_value(s: Seq<char>) -> int
    decreases s.len(),
{
    if s.len() == 0 {
        0
    } else {
        10 * decimal_value(s.drop_last()) + digit_value(s.last())
    }
}

proof fn lemma_decimal(n: nat)
    ensures
        decimal_value(text::decimal(n)) == n,
        text::decimal(n).len() > 0,
        forall|i: int|
            0 <= i < text::decimal(n).len() ==> '0' <= #[trigger] text::decimal(n)[i] <= '9',
        n > 0 ==> text::decimal(n)[0] != '0',
        n == 0 ==> text::decimal(n).len() == 1,
    decreases n,
{
    let s = text::decimal(n);
    if n < 10 {
        assert(s.drop_last() =~= Seq::empty());
        assert(decimal_value(s.drop_last()) == 0);
    } else {
        lemma_decimal(n / 10);
        assert(s.drop_last() =~= text::decimal(n / 10));
        assert(s[0] == text::decimal(n / 10)[0]);
    }
}

/// The decimal notation of a number is made of decimal digits, writes that
/// number, and has no needless zero in front.
pub proof fn decimal_writes_the_number(n: u64, shown: String)
    requires
        call_ensures(decimal_text, (n,), shown),
    ensures
        decimal_value(shown@) == n,
        shown@.len() > 0,
        forall|i: int| 0 <= i < shown@.len() ==> '0' <= #[trigger] shown@[i] <= '9',
        shown@.len() > 1 ==> shown@[0] != '0',
{
    lemma_decimal(n as nat);
}

proof fn lemma_hex(bytes: Seq<u8>, i: int)
    requires
        0 <= i < bytes.len(),
    ensures
        text::hex(bytes).len() == 2 * bytes.len(),
        16 * digit_value(text::hex(bytes)[2 * i]) + digit_value(text::hex(bytes)[2 * i + 1])
            == bytes[i],
        '0' <= text::hex(bytes)[2 * i] <= '9' || 'a' <= text::hex(bytes)[2 * i] <= 'f',
        '0' <= text::hex(bytes)[2 * i + 1] <= '9' || 'a' <= text::hex(bytes)[2 * i + 1] <= 'f',
    decreases bytes.len(),
{
    let front = bytes.drop_last();
    if front.len() == 0 {
        assert(text::hex(front) =~= Seq::empty());
    } else {
        lemma_hex(
            front,
            if i < front.len() {
                i
            } else {
                0
            },
        );
    }
    let b = bytes.last() as int;
    assert(0 <= b / 16 < 16 && 0 <= b % 16 < 16);
}

/// The hexadecimal notation has two digits for each byte, in their order,
/// which write that byte.
pub proof fn hex_writes_each_byte(bytes: &[u8], shown: String)
    requires
        call_ensures(hex_text, (bytes,), shown),
    ensures
        shown@.len() == 2 * bytes@.len(),
        forall|i: int|
            0 <= i < bytes@.len() ==> 16 * digit_value(shown@[2 * i]) + digit_value(
                shown@[2 * i + 1],
            ) == #[trigger] bytes@[i],
        forall|k: int|
            0 <= k < shown@.len() ==> '0' <= #[trigger] shown@[k] <= '9' || 'a' <= shown@[k]
                <= 'f',
{
    if bytes@.len() > 0 {
        lemma_hex(bytes@, 0);
    } else {
        assert(text::hex(bytes@) =~= Seq::empty());
    }
    assert forall|i: int| 0 <= i < bytes@.len() implies 16 * digit_value(shown@[2 * i])
        + digit_value(shown@[2 * i + 1]) == #[trigger] bytes@[i] by {
        lemma_hex(bytes@, i);
    }
    assert forall|k: int| 0 <= k < shown@.len() implies '0' <= #[trigger] shown@[k] <= '9' || 'a'
        <= shown@[k] <= 'f' by {
        lemma_hex(bytes@, k / 2);
        assert(k == 2 * (k / 2) || k == 2 * (k / 2) + 1);
    }
}

proof fn lemma_join_append(a: Seq<Seq<char>>, b: Seq<Seq<char>>, sep: Seq<char>)
    requires
        a.len() > 0,
        b.len() > 0,
    ensures
        text::join(a + b, sep) == text::join(a, sep) + sep + text::join(b, sep),
    decreases b.len(),
{
    let all = a + b;
    assert(all.last() == b.last());
    if b.len() == 1 {
        assert(all.drop_last() =~= a);
    } else {
        lemma_join_append(a, b.drop_last(), sep);
        assert(all.drop_last() =~= a + b.drop_last());
    }
    assert(text::join(all, sep) =~= text::join(a, sep) + sep + text::join(b, sep));
}

/// One text joins to itself, none to the empty text, and two groups of
/// texts to what each of them joins to, with the separator in between.
pub proof fn joining_puts_the_separator_between(
    a: &Vec<String>,
    b: &Vec<String>,
    both: &Vec<String>,
    sep: &str,
    joined_a: String,
    joined_b: String,
    joined: String,
)
    requires
        both@ == a@ + b@,
        call_ensures(join_text, (a, sep), joined_a),
        call_ensures(join_text, (b, sep), joined_b),
        call_ensures(join_text, (both, sep), joined),
    ensures
        a@.len() == 0 ==> joined_a@ == Seq::<char>::empty(),
        a@.len() == 1 ==> joined_a@ == a@[0]@,
        a@.len() > 0 && b@.len() > 0 ==> joined@ == joined_a@ + sep@ + joined_b@,
{
    let ta = text::texts(a@);
    let tb = text::texts(b@);
    assert(text::texts(both@) =~= ta + tb);
    if a@.len() > 0 && b@.len() > 0 {
        lemma_join_append(ta, tb, sep@);
    }
}

proof fn lemma_before(s: Seq<char>, c: char)
    ensures
        ({
            let head = text::before(s, c);
            &&& head.len() <= s.len()
            &&& head == s.take(head.len() as int)
            &&& forall|i: int| 0 <= i < head.len() ==> #[trigger] head[i] != c
            &&& head.len() < s.len() ==> s[head.len() as int] == c
        }),
    decreases s.len(),
{
    let head = text::before(s, c);
    if s.len() == 0 || s[0] == c {
        assert(head =~= s.take(0));
    } else {
        lemma_before(s.skip(1), c);
        let rest = text::before(s.skip(1), c);
        assert(head =~= s.take(head.len() as int)) by {
            assert forall|i: int| 0 <= i < head.len() implies head[i] == s[i] by {
                if i > 0 {
                    assert(rest[i - 1] == s.skip(1).take(rest.len() as int)[i - 1]);
                }
            }
        }
        assert forall|i: int| 0 <= i < head.len() implies #[trigger] head[i] != c by {
            if i > 0 {
                assert(head[i] == rest[i - 1]);
            }
        }
    }
}

/// What stands before a character is the start of the text, up to the
/// first place where that character stands, or the whole text.
pub proof fn before_ends_at_the_first(s: &str, c: char, head: &str)
    requires
        call_ensures(text_before, (s, c), head),
    ensures
        head@.len() <= s@.len(),
        head@ == s@.take(head@.len() as int),
        forall|i: int| 0 <= i < head@.len() ==> #[trigger] head@[i] != c,
        head@.len() < s@.len() ==> s@[head@.len() as int] == c,
{
    lemma_before(s@, c);
}

/// Two texts are equal exactly where they have the same characters.
pub proof fn equal_means_same_characters(a: &str, b: &str, equal: bool)
    requires
        call_ensures(str_eq, (a, b), equal),
    ensures
        equal <==> a@.len() == b@.len() && forall|i: int| 0 <= i < a@.len() ==> a@[i] == b@[i],
{
    if a@.len() == b@.len() && forall|i: int| 0 <= i < a@.len() ==> a@[i] == b@[i] {
        assert(a@ =~= b@);
    }
}

} // verus!
