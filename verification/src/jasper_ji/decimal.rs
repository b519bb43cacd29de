//! Decimal text of `u32` values: the form that note ids take in page
//! addresses and in the edit form.
use vstd::prelude::*;

verus! {

/// An ASCII decimal digit.
pub open spec fn is_digit(c: char) -> bool {
    '0' <= c && c <= '9'
}

/// The value of an ASCII decimal digit.
pub open spec fn digit_value(c: char) -> nat {
    (c as int - '0' as int) as nat
}

/// The ASCII digit of a value below ten.
pub open spec fn digit_char(d: nat) -> char {
    if d == 0 { '0' }
    else if d == 1 { '1' }
    else if d == 2 { '2' }
    else if d == 3 { '3' }
    else if d == 4 { '4' }
    else if d == 5 { '5' }
    else if d == 6 { '6' }
    else if d == 7 { '7' }
    else if d == 8 { '8' }
    else { '9' }
}

pub open spec fn all_digits(s: Seq<char>) -> bool {
    forall|i: int| 0 <= i < s.len() ==> is_digit(#[trigger] s[i])
}

/// The number that a string of digits denotes, most significant first.
pub open spec fn digits_value(s: Seq<char>) -> nat
    decreases s.len(),
{
    if s.len() == 0 {
        0
    } else {
        digits_value(s.drop_last()) * 10 + digit_value(s.last())
    }
}

/// What `u32::from_str` accepts: an optional `+`, then at least one ASCII
/// digit, with a value that fits in a `u32`.
pub open spec fn spec_parse_u32(s: Seq<char>) -> Option<u32> {
    let body = if s.len() > 0 && s[0] == '+' { s.drop_first() } else { s };
    if body.len() > 0 && all_digits(body) && digits_value(body) <= u32::MAX {
        Some(digits_value(body) as u32)
    } else {
        None
    }
}

/// The shortest decimal text of `n`: no sign, no leading zero.
pub open spec fn spec_format_u32(n: nat) -> Seq<char>
    decreases n,
{
    if n < 10 {
        seq![digit_char(n)]
    } else {
        spec_format_u32(n / 10).push(digit_char(n % 10))
    }
}

proof fn lemma_digit_roundtrip(d: nat)
    requires
        d < 10,
    ensures
        is_digit(digit_char(d)),
        digit_value(digit_char(d)) == d,
{
}

proof fn lemma_digits_value_step(s: Seq<char>, i: int)
    requires
        0 <= i < s.len(),
    ensures
        digits_value(s.take(i + 1)) == digits_value(s.take(i)) * 10 + digit_value(s[i]),
{
    assert(s.take(i + 1).drop_last() =~= s.take(i));
}

/// The text of `n` is all digits, begins with no `+`, and denotes `n`.
pub proof fn lemma_format_digits(n: nat)
    ensures
        spec_format_u32(n).len() > 0,
        all_digits(spec_format_u32(n)),
        digits_value(spec_format_u32(n)) == n,
        spec_format_u32(n)[0] != '+',
    decreases n,
{
    lemma_digit_roundtrip(n % 10);
    if n < 10 {
        let s = spec_format_u32(n);
        assert(s.drop_last() =~= Seq::<char>::empty());
        assert(digits_value(s.drop_last()) == 0);
        assert(s.last() == digit_char(n));
    } else {
        lemma_format_digits(n / 10);
        let s = spec_format_u32(n);
        assert(s.drop_last() =~= spec_format_u32(n / 10));
        assert(s[0] == spec_format_u32(n / 10)[0]);
        assert(s.last() == digit_char(n % 10));
        assert(digits_value(s) == digits_value(s.drop_last()) * 10 + digit_value(s.last()));
    }
}

/// Reading back the decimal text of a `u32` gives the same number.
pub proof fn lemma_parse_format_roundtrip(n: u32)
    ensures
        spec_parse_u32(spec_format_u32(n as nat)) == Some(n),
{
    lemma_format_digits(n as nat);
}

/// The decimal text of a number begins with `0` only when the number is 0:
/// it has no leading zero.
pub proof fn lemma_format_no_leading_zero(n: nat)
    ensures
        (spec_format_u32(n)[0] == '0') == (n == 0),
    decreases n,
{
    if n >= 10 {
        lemma_format_no_leading_zero(n / 10);
        let s = spec_format_u32(n);
        assert(s[0] == spec_format_u32(n / 10)[0]);
    }
}

/// The text of a number denotes it also after a `+` sign or leading zeros;
/// an empty text and a lone `+` denote nothing.
pub proof fn lemma_parse_sign_and_zeros(n: u32)
    ensures
        spec_parse_u32(seq!['+'] + spec_format_u32(n as nat)) == Some(n),
        spec_parse_u32(seq!['0'] + spec_format_u32(n as nat)) == Some(n),
        spec_parse_u32(seq!['+', '0'] + spec_format_u32(n as nat)) == Some(n),
        spec_parse_u32(Seq::empty()) == None::<u32>,
        spec_parse_u32(seq!['+']) == None::<u32>,
{
    let d = spec_format_u32(n as nat);
    lemma_format_digits(n as nat);
    assert((seq!['+'] + d).drop_first() =~= d);
    lemma_leading_zero_value(d);
    assert((seq!['+', '0'] + d).drop_first() =~= seq!['0'] + d);
    assert(seq!['+'].drop_first() =~= Seq::<char>::empty());
}

/// A zero in front of a string of digits changes nothing of its value.
proof fn lemma_leading_zero_value(d: Seq<char>)
    requires
        all_digits(d),
    ensures
        all_digits(seq!['0'] + d),
        digits_value(seq!['0'] + d) == digits_value(d),
        (seq!['0'] + d)[0] != '+',
    decreases d.len(),
{
    let z = seq!['0'] + d;
    assert forall|i: int| 0 <= i < z.len() implies is_digit(#[trigger] z[i]) by {
        if i > 0 {
            assert(z[i] == d[i - 1]);
        }
    }
    if d.len() == 0 {
        assert(z =~= seq!['0']);
        assert(z.drop_last() =~= Seq::<char>::empty());
        assert(digits_value(z.drop_last()) == 0);
        assert(z.last() == '0');
        assert(digits_value(z) == digits_value(z.drop_last()) * 10 + digit_value(z.last()));
    } else {
        assert(z.drop_last() =~= seq!['0'] + d.drop_last());
        assert(all_digits(d.drop_last()));
        lemma_leading_zero_value(d.drop_last());
        assert(z.last() == d.last());
        assert(digits_value(z) == digits_value(z.drop_last()) * 10 + digit_value(z.last()));
        assert(digits_value(d) == digits_value(d.drop_last()) * 10 + digit_value(d.last()));
    }
}

/// A text with a character that is no digit, other than a `+` in front,
/// denotes nothing.
pub proof fn lemma_parse_rejects_non_digit(s: Seq<char>, i: int)
    requires
        0 <= i < s.len(),
        !is_digit(s[i]),
        i > 0 || s[i] != '+',
    ensures
        spec_parse_u32(s) == None::<u32>,
{
    if s.len() > 0 && s[0] == '+' {
        assert(s.drop_first()[i - 1] == s[i]);
    }
}

/// A non-empty string of digits denotes its value when that fits in a
/// `u32`, and nothing when it does not.
pub proof fn lemma_parse_digits(s: Seq<char>)
    requires
        s.len() > 0,
        all_digits(s),
    ensures
        digits_value(s) <= u32::MAX ==> spec_parse_u32(s) == Some(digits_value(s) as u32),
        digits_value(s) > u32::MAX ==> spec_parse_u32(s) == None::<u32>,
{
    assert(is_digit(s[0]));
}

fn digit_str(d: u32) -> (r: &'static str)
    requires
        d < 10,
    ensures
        r@ == seq![digit_char(d as nat)],
{
    if d == 0 {
        proof { reveal_strlit("0"); }
        "0"
    } else if d == 1 {
        proof { reveal_strlit("1"); }
        "1"
    } else if d == 2 {
        proof { reveal_strlit("2"); }
        "2"
    } else if d == 3 {
        proof { reveal_strlit("3"); }
        "3"
    } else if d == 4 {
        proof { reveal_strlit("4"); }
        "4"
    } else if d == 5 {
        proof { reveal_strlit("5"); }
        "5"
    } else if d == 6 {
        proof { reveal_strlit("6"); }
        "6"
    } else if d == 7 {
        proof { reveal_strlit("7"); }
        "7"
    } else if d == 8 {
        proof { reveal_strlit("8"); }
        "8"
    } else {
        proof { reveal_strlit("9"); }
        "9"
    }
}

/// The decimal text of `n`, as `n.to_string()` writes it.
pub fn format_u32(n: u32) -> (r: String)
    ensures
        r@ == spec_format_u32(n as nat),
    decreases n,
{
    if n < 10 {
        String::from_str(digit_str(n))
    } else {
        let mut s = format_u32(n / 10);
        s.append(digit_str(n % 10));
        s
    }
}

/// Reads the characters `from..to` of `s` as `u32::from_str` would.
pub fn parse_u32_range(s: &str, from: usize, to: usize) -> (r: Option<u32>)
    requires
        from <= to <= s@.len(),
    ensures
        r == spec_parse_u32(s@.subrange(from as int, to as int)),
{
    let ghost text = s@.subrange(from as int, to as int);
    let mut start = from;
    if from < to && s.get_char(from) == '+' {
        start = from + 1;
    }
    let ghost body = s@.subrange(start as int, to as int);
    assert(body =~= (if text.len() > 0 && text[0] == '+' { text.drop_first() } else { text }));
    if start == to {
        return None;
    }
    let mut acc: u64 = 0;
    let mut i = start;
    while i < to
        invariant
            start <= i <= to <= s@.len(),
            start < to,
            body == s@.subrange(start as int, to as int),
            text == s@.subrange(from as int, to as int),
            body == (if text.len() > 0 && text[0] == '+' { text.drop_first() } else { text }),
            acc == digits_value(body.take(i - start)),
            acc <= u32::MAX,
            all_digits(body.take(i - start)),
        decreases to - i,
    {
        let c = s.get_char(i);
        assert(c == body[i - start]);
        if !('0' <= c && c <= '9') {
            assert(!all_digits(body));
            return None;
        }
        proof { lemma_digits_value_step(body, i - start); }
        let d = (c as u32 - '0' as u32) as u64;
        acc = acc * 10 + d;
        assert(all_digits(body.take(i + 1 - start)));
        if acc > 0xffff_ffff {
            proof {
                if all_digits(body) {
                    lemma_prefix_value_bound(body, i + 1 - start);
                }
            }
            return None;
        }
        i = i + 1;
    }
    assert(body.take(to - start) =~= body);
    Some(acc as u32)
}

/// A string of digits denotes at least as much as any of its prefixes.
proof fn lemma_prefix_value_bound(s: Seq<char>, k: int)
    requires
        0 <= k <= s.len(),
        all_digits(s),
    ensures
        digits_value(s.take(k)) <= digits_value(s),
    decreases s.len() - k,
{
    if k < s.len() {
        lemma_prefix_value_bound(s, k + 1);
        lemma_digits_value_step(s, k);
    } else {
        assert(s.take(k) =~= s);
    }
}

/// Reads `s` as `u32::from_str` would: an optional `+`, then digits.
pub fn parse_u32(s: &str) -> (r: Option<u32>)
    ensures
        r == spec_parse_u32(s@),
{
    let n = s.unicode_len();
    assert(s@.subrange(0, n as int) =~= s@);
    parse_u32_range(s, 0, n)
}

} // verus!
