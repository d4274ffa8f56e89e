//! Decimal text: how a process id is written into a record and read back.
//!
//! A record holds one process id as plain decimal digits. On reading,
//! white space around the number is ignored and one leading `+` is
//! accepted; anything else makes the record unreadable.

use crate::text::chars_of;
use vstd::prelude::*;
use vstd::string::*;

verus! {

/// The characters that count as white space around a number: the code
/// points with the Unicode property White_Space.
pub open spec fn is_space(c: char) -> bool {
    let n = c as u32;
    ||| 0x09 <= n <= 0x0D
    ||| n == 0x20
    ||| n == 0x85
    ||| n == 0xA0
    ||| n == 0x1680
    ||| 0x2000 <= n <= 0x200A
    ||| n == 0x2028
    ||| n == 0x2029
    ||| n == 0x202F
    ||| n == 0x205F
    ||| n == 0x3000
}

pub open spec fn is_digit(c: char) -> bool {
    '0' <= c <= '9'
}

/// The value of a decimal digit character.
pub open spec fn digit_value(c: char) -> nat
    recommends
        is_digit(c),
{
    (c as u32 - 48) as nat
}

/// The character that writes the digit `d`.
pub open spec fn digit_char(d: nat) -> char
    recommends
        d < 10,
{
    ((48 + d) as u8) as char
}

pub open spec fn all_digits(s: Seq<char>) -> bool {
    forall|i: int| 0 <= i < s.len() ==> is_digit(#[trigger] s[i])
}

/// The number that a sequence of digits writes, most significant digit
/// first. The empty sequence writes 0.
pub open spec fn digits_value(s: Seq<char>) -> nat
    decreases s.len(),
{
    if s.len() == 0 {
        0
    } else {
        digits_value(s.drop_last()) * 10 + digit_value(s.last())
    }
}

/// How many white-space characters `s` begins with.
pub open spec fn leading_spaces(s: Seq<char>) -> nat
    decreases s.len(),
{
    if s.len() > 0 && is_space(s[0]) {
        1 + leading_spaces(s.skip(1))
    } else {
        0
    }
}

/// How many white-space characters `s` ends with.
pub open spec fn trailing_spaces(s: Seq<char>) -> nat
    decreases s.len(),
{
    if s.len() > 0 && is_space(s.last()) {
        1 + trailing_spaces(s.drop_last())
    } else {
        0
    }
}

/// `s` without the white space at its two ends.
pub open spec fn trimmed(s: Seq<char>) -> Seq<char> {
    if leading_spaces(s) >= s.len() {
        Seq::<char>::empty()
    } else {
        s.subrange(leading_spaces(s) as int, s.len() - trailing_spaces(s))
    }
}

/// `s` without one leading `+`, if it has one.
pub open spec fn unsigned_part(s: Seq<char>) -> Seq<char> {
    if s.len() > 0 && s[0] == '+' {
        s.skip(1)
    } else {
        s
    }
}

/// The process id that a record's text holds, if it holds one: the
/// trimmed text is an optional `+` and then at least one digit, nothing
/// else, and the number fits in 32 bits.
pub open spec fn parse_pid_spec(s: Seq<char>) -> Option<u32> {
    let d = unsigned_part(trimmed(s));
    if d.len() > 0 && all_digits(d) && digits_value(d) <= u32::MAX {
        Some(digits_value(d) as u32)
    } else {
        None
    }
}

/// The decimal digits of `n`, without sign or leading zeros.
pub open spec fn decimal(n: nat) -> Seq<char>
    decreases n,
{
    if n < 10 {
        seq![digit_char(n)]
    } else {
        decimal(n / 10).push(digit_char(n % 10))
    }
}

/// A number cut off just above the largest process id: every number that
/// does not fit in 32 bits is taken to this one value.
pub open spec fn capped(v: nat) -> nat {
    if v > u32::MAX {
        0x1_0000_0000
    } else {
        v
    }
}

proof fn lemma_leading(s: Seq<char>, k: int)
    requires
        0 <= k <= s.len(),
        forall|j: int| 0 <= j < k ==> is_space(#[trigger] s[j]),
        k == s.len() || !is_space(s[k]),
    ensures
        leading_spaces(s) == k,
    decreases k,
{
    if k > 0 {
        let t = s.skip(1);
        assert forall|j: int| 0 <= j < k - 1 implies is_space(#[trigger] t[j]) by {
            assert(t[j] == s[j + 1]);
        }
        if k < s.len() {
            assert(t[k - 1] == s[k]);
        }
        lemma_leading(t, k - 1);
    }
}

proof fn lemma_trailing(s: Seq<char>, k: int)
    requires
        0 <= k <= s.len(),
        forall|j: int| k <= j < s.len() ==> is_space(#[trigger] s[j]),
        k == 0 || !is_space(s[k - 1]),
    ensures
        trailing_spaces(s) == s.len() - k,
    decreases s.len() - k,
{
    if k < s.len() {
        let t = s.drop_last();
        assert forall|j: int| k <= j < t.len() implies is_space(#[trigger] t[j]) by {
            assert(t[j] == s[j]);
        }
        if k > 0 {
            assert(t[k - 1] == s[k - 1]);
        }
        lemma_trailing(t, k);
    }
}

/// Every digit sequence that `decimal` writes is read back as the number
/// it was written from, and has neither white space nor a sign.
pub proof fn lemma_decimal_digits(n: nat)
    ensures
        decimal(n).len() > 0,
        all_digits(decimal(n)),
        digits_value(decimal(n)) == n,
    decreases n,
{
    if n < 10 {
        let s = decimal(n);
        assert(s.drop_last() =~= Seq::<char>::empty());
        assert(digits_value(s.drop_last()) == 0);
        assert(s.last() == digit_char(n));
    } else {
        lemma_decimal_digits(n / 10);
        let init = decimal(n / 10);
        let s = init.push(digit_char(n % 10));
        assert(s.drop_last() =~= init);
        assert(s.last() == digit_char(n % 10));
        assert forall|i: int| 0 <= i < s.len() implies is_digit(#[trigger] s[i]) by {
            if i < init.len() {
                assert(s[i] == init[i]);
            }
        }
    }
}

/// Reading back what `decimal` wrote gives the number that was written.
pub proof fn lemma_parse_decimal(pid: u32)
    ensures
        parse_pid_spec(decimal(pid as nat)) == Some(pid),
{
    let s = decimal(pid as nat);
    lemma_decimal_digits(pid as nat);
    assert(is_digit(s[0]));
    assert(is_digit(s.last()));
    assert(!is_space(s[0]));
    assert(!is_space(s.last()));
    assert(leading_spaces(s) == 0);
    assert(trailing_spaces(s) == 0);
    assert(trimmed(s) =~= s);
    assert(unsigned_part(s) == s);
}

/// Whether `c` is white space.
pub fn is_space_char(c: char) -> (r: bool)
    ensures
        r == is_space(c),
{
    let n: u32 = c as u32;
    (0x09 <= n && n <= 0x0D) || n == 0x20 || n == 0x85 || n == 0xA0 || n == 0x1680 || (0x2000 <= n
        && n <= 0x200A) || n == 0x2028 || n == 0x2029 || n == 0x202F || n == 0x205F || n == 0x3000
}

/// Reads the process id that a record's text holds.
pub fn parse_pid(content: &str) -> (r: Option<u32>)
    ensures
        r == parse_pid_spec(content@),
{
    let chars = chars_of(content);
    let n: usize = chars.len();
    let mut lo: usize = 0;
    while lo < n && is_space_char(chars[lo])
        invariant
            lo <= n,
            n == content@.len(),
            chars@ == content@,
            forall|j: int| 0 <= j < lo ==> is_space(#[trigger] content@[j]),
        decreases n - lo,
    {
        lo += 1;
    }
    proof {
        lemma_leading(content@, lo as int);
    }
    if lo == n {
        return None;
    }
    let mut hi: usize = n;
    while is_space_char(chars[hi - 1])
        invariant
            lo < hi <= n,
            n == content@.len(),
            chars@ == content@,
            !is_space(content@[lo as int]),
            forall|j: int| hi <= j < n ==> is_space(#[trigger] content@[j]),
        decreases hi,
    {
        hi -= 1;
    }
    proof {
        lemma_trailing(content@, hi as int);
    }
    let ghost body = content@.subrange(lo as int, hi as int);
    assert(trimmed(content@) == body);
    assert(body[0] == content@[lo as int]);
    let mut start: usize = lo;
    if chars[lo] == '+' {
        start = lo + 1;
    }
    let ghost digits = content@.subrange(start as int, hi as int);
    assert(unsigned_part(body) =~= digits);
    if start == hi {
        return None;
    }
    let mut acc: u64 = 0;
    let mut i: usize = start;
    while i < hi
        invariant
            start <= i <= hi <= n,
            n == content@.len(),
            chars@ == content@,
            digits == content@.subrange(start as int, hi as int),
            unsigned_part(trimmed(content@)) == digits,
            all_digits(content@.subrange(start as int, i as int)),
            acc == capped(digits_value(content@.subrange(start as int, i as int))),
        decreases hi - i,
    {
        let c: char = chars[i];
        if c < '0' || c > '9' {
            proof {
                assert(digits[i - start] == c);
            }
            return None;
        }
        let d: u64 = (c as u32 - 48) as u64;
        proof {
            let before = content@.subrange(start as int, i as int);
            let after = content@.subrange(start as int, i + 1);
            assert(after.drop_last() =~= before);
            assert(after.last() == c);
            assert(digits_value(after) == digits_value(before) * 10 + d);
            assert forall|j: int| 0 <= j < after.len() implies is_digit(#[trigger] after[j]) by {
                if j < before.len() {
                    assert(after[j] == before[j]);
                }
            }
        }
        let next: u64 = acc * 10 + d;
        acc = if next > 0xFFFF_FFFF { 0x1_0000_0000 } else { next };
        i += 1;
    }
    assert(content@.subrange(start as int, i as int) == digits);
    if acc > 0xFFFF_FFFF {
        None
    } else {
        Some(acc as u32)
    }
}

/// The text of one decimal digit.
fn digit_text(d: u32) -> (r: &'static str)
    requires
        d < 10,
    ensures
        r@ == seq![digit_char(d as nat)],
{
    proof {
        reveal_strlit("0");
        reveal_strlit("1");
        reveal_strlit("2");
        reveal_strlit("3");
        reveal_strlit("4");
        reveal_strlit("5");
        reveal_strlit("6");
        reveal_strlit("7");
        reveal_strlit("8");
        reveal_strlit("9");
    }
    let r = if d == 0 {
        "0"
    } else if d == 1 {
        "1"
    } else if d == 2 {
        "2"
    } else if d == 3 {
        "3"
    } else if d == 4 {
        "4"
    } else if d == 5 {
        "5"
    } else if d == 6 {
        "6"
    } else if d == 7 {
        "7"
    } else if d == 8 {
        "8"
    } else {
        "9"
    };
    r
}

/// Writes a number as decimal digits.
pub fn format_decimal(n: u32) -> (r: String)
    ensures
        r@ == decimal(n as nat),
    decreases n,
{
    if n < 10 {
        String::from_str(digit_text(n))
    } else {
        let mut s = format_decimal(n / 10);
        let last = digit_text(n % 10);
        s.append(last);
        s
    }
}

} // verus!
