use vstd::prelude::*;

verus! {

/// The character of a decimal digit `d` (0 through 9).
pub open spec fn digit_char(d: nat) -> char {
    if d == 0 { '0' }
    else if d == 1 { '1' }
    else if d == 2 { '2' }
    else if d == 3 { '3' }
    else if d == 4 { '4' }
    else if d == 5 { '5' }
    else if d == 6 { '6' }
    else if d == 7 { '7' }
    else if d == 8 { '8' }
    else { '9' }
}

/// The value of a decimal digit character; `None` for any other character.
pub open spec fn digit_value(c: char) -> Option<nat> {
    if c == '0' { Some(0) }
    else if c == '1' { Some(1) }
    else if c == '2' { Some(2) }
    else if c == '3' { Some(3) }
    else if c == '4' { Some(4) }
    else if c == '5' { Some(5) }
    else if c == '6' { Some(6) }
    else if c == '7' { Some(7) }
    else if c == '8' { Some(8) }
    else if c == '9' { Some(9) }
    else { None }
}

/// The shortest decimal notation of `n`, most significant digit first.
pub open spec fn decimal(n: nat) -> Seq<char>
    decreases n,
{
    if n < 10 {
        seq![digit_char(n)]
    } else {
        decimal(n / 10).push(digit_char(n % 10))
    }
}

/// How `{}` prints a signed integer: a minus sign before the digits of its magnitude.
pub open spec fn signed_decimal(n: int) -> Seq<char> {
    if n < 0 {
        seq!['-'] + decimal((-n) as nat)
    } else {
        decimal(n as nat)
    }
}

/// The number that a string of decimal digits denotes.
pub open spec fn decimal_value(s: Seq<char>) -> nat
    decreases s.len(),
{
    if s.len() == 0 {
        0
    } else {
        decimal_value(s.drop_last()) * 10 + match digit_value(s.last()) {
            Some(d) => d,
            None => 0,
        }
    }
}

/// Whether every character of `s` is a decimal digit.
pub open spec fn all_digits(s: Seq<char>) -> bool {
    forall|i: int| 0 <= i < s.len() ==> (#[trigger] digit_value(s[i])) is Some
}

/// Reading back the decimal notation of a number gives the number.
pub proof fn lemma_decimal_roundtrip(n: nat)
    ensures
        all_digits(decimal(n)),
        decimal_value(decimal(n)) == n,
        decimal(n).len() > 0,
    decreases n,
{
    if n < 10 {
        let s = decimal(n);
        assert(s.drop_last() =~= Seq::<char>::empty());
        assert(decimal_value(s.drop_last()) == 0);
    } else {
        lemma_decimal_roundtrip(n / 10);
        let s = decimal(n);
        assert(s.drop_last() =~= decimal(n / 10));
        assert forall|i: int| 0 <= i < s.len() implies (#[trigger] digit_value(s[i])) is Some by {
            if i < s.len() - 1 {
                assert(s[i] == decimal(n / 10)[i]);
            }
        }
    }
}

/// Distinct numbers have distinct decimal notations.
pub proof fn lemma_decimal_injective(m: nat, n: nat)
    requires
        decimal(m) == decimal(n),
    ensures
        m == n,
{
    lemma_decimal_roundtrip(m);
    lemma_decimal_roundtrip(n);
}

/// A number of six digits, 100000 through 999999, is written with exactly six characters.
pub proof fn lemma_six_digit_length(n: nat)
    requires
        100_000 <= n < 1_000_000,
    ensures
        decimal(n).len() == 6,
{
    assert(decimal(n / 100_000).len() == 1);
    assert(decimal(n / 10_000).len() == 2);
    assert(decimal(n / 1_000).len() == 3);
    assert(decimal(n / 100).len() == 4);
    assert(decimal(n / 10).len() == 5);
}

/// The one-character string of a digit.
fn digit_str(d: u64) -> (s: &'static str)
    requires
        d < 10,
    ensures
        s@ == seq![digit_char(d as nat)],
{
    proof {
        reveal_strlit("0");
        reveal_strlit("1");
        reveal_strlit("2");
        reveal_strlit("3");
        reveal_strlit("4");
        reveal_strlit("5");
        reveal_strlit("6");
        reveal_strlit("7");
        reveal_strlit("8");
        reveal_strlit("9");
    }
    if d == 0 { "0" }
    else if d == 1 { "1" }
    else if d == 2 { "2" }
    else if d == 3 { "3" }
    else if d == 4 { "4" }
    else if d == 5 { "5" }
    else if d == 6 { "6" }
    else if d == 7 { "7" }
    else if d == 8 { "8" }
    else { "9" }
}

/// Writes a non-negative integer in decimal, as `to_string` does.
pub fn u64_to_decimal(n: u64) -> (s: String)
    ensures
        s@ == decimal(n as nat),
    decreases n,
{
    if n < 10 {
        String::from_str(digit_str(n))
    } else {
        let mut s = u64_to_decimal(n / 10);
        s.append(digit_str(n % 10));
        s
    }
}

/// Writes a signed 32-bit integer in decimal, as `to_string` does.
pub fn i32_to_decimal(n: i32) -> (s: String)
    ensures
        s@ == signed_decimal(n as int),
{
    if n < 0 {
        let magnitude: i64 = -(n as i64);
        let digits = u64_to_decimal(magnitude as u64);
        let s = String::from_str("-");
        proof {
            reveal_strlit("-");
        }
        s.concat(digits.as_str())
    } else {
        u64_to_decimal(n as u64)
    }
}

} // verus!

verus! {

/// What `str::parse::<i64>` reads: an optional '+' or '-', then one or more
/// decimal digits whose value fits in an `i64`; `None` for anything else.
pub open spec fn std_parse_i64(s: Seq<char>) -> Option<int> {
    if s.len() > 0 && s[0] == '-' {
        let d = s.drop_first();
        if d.len() > 0 && all_digits(d) && decimal_value(d) <= 9_223_372_036_854_775_808 {
            Some(-(decimal_value(d) as int))
        } else {
            None
        }
    } else {
        let d = if s.len() > 0 && s[0] == '+' { s.drop_first() } else { s };
        if d.len() > 0 && all_digits(d) && decimal_value(d) <= 9_223_372_036_854_775_807 {
            Some(decimal_value(d) as int)
        } else {
            None
        }
    }
}

/// The value of a digit string never falls below that of its prefixes.
proof fn lemma_decimal_value_prefix(d: Seq<char>, i: int)
    requires
        0 <= i <= d.len(),
    ensures
        decimal_value(d.take(i)) <= decimal_value(d),
    decreases d.len() - i,
{
    if i < d.len() {
        lemma_decimal_value_prefix(d, i + 1);
        assert(d.take(i + 1).drop_last() =~= d.take(i));
    } else {
        assert(d.take(i) =~= d);
    }
}

/// The value of a decimal digit character.
fn char_digit(c: char) -> (r: Option<u64>)
    ensures
        match digit_value(c) {
            Some(v) => r == Some(v as u64),
            None => r is None,
        },
{
    if c == '0' { Some(0) }
    else if c == '1' { Some(1) }
    else if c == '2' { Some(2) }
    else if c == '3' { Some(3) }
    else if c == '4' { Some(4) }
    else if c == '5' { Some(5) }
    else if c == '6' { Some(6) }
    else if c == '7' { Some(7) }
    else if c == '8' { Some(8) }
    else if c == '9' { Some(9) }
    else { None }
}

/// The value of the characters of `s` from `start` on, where they are one or more
/// digits worth at most `limit`.
fn parse_digits(s: &str, start: usize, limit: u64) -> (r: Option<u64>)
    requires
        start <= s@.len(),
    ensures
        ({
            let d = s@.skip(start as int);
            if d.len() > 0 && all_digits(d) && decimal_value(d) <= limit {
                r == Some(decimal_value(d) as u64)
            } else {
                r is None
            }
        }),
{
    let ghost d = s@.skip(start as int);
    let n = s.unicode_len();
    if start >= n {
        return None;
    }
    let mut acc: u128 = 0;
    let mut i: usize = start;
    assert(d.take(0) =~= Seq::<char>::empty());
    while i < n
        invariant
            n == s@.len(),
            d == s@.skip(start as int),
            start <= i <= n,
            acc as int == decimal_value(d.take(i - start)),
            acc <= limit,
            forall|j: int| 0 <= j < i - start ==> (#[trigger] digit_value(d[j])) is Some,
        decreases n - i,
    {
        let c = s.get_char(i);
        let k: Ghost<int> = Ghost(i - start);
        assert(d[k@] == c);
        match char_digit(c) {
            None => {
                return None;
            },
            Some(v) => {
                proof {
                    assert(d.take(k@ + 1).drop_last() =~= d.take(k@));
                    assert(d.take(k@ + 1).last() == c);
                }
                acc = acc * 10 + v as u128;
                if acc > limit as u128 {
                    proof {
                        lemma_decimal_value_prefix(d, k@ + 1);
                    }
                    return None;
                }
            },
        }
        i = i + 1;
    }
    assert(d.take(d.len() as int) =~= d);
    Some(acc as u64)
}

/// Reads a signed 64-bit integer as `str::parse::<i64>` does.
pub fn parse_i64(s: &str) -> (r: Option<i64>)
    ensures
        match std_parse_i64(s@) {
            Some(v) => r == Some(v as i64),
            None => r is None,
        },
{
    let n = s.unicode_len();
    if n > 0 && s.get_char(0) == '-' {
        assert(s@.skip(1) =~= s@.drop_first());
        match parse_digits(s, 1, 9_223_372_036_854_775_808) {
            None => None,
            Some(v) => if v == 9_223_372_036_854_775_808 {
                Some(i64::MIN)
            } else {
                Some(-(v as i64))
            },
        }
    } else if n > 0 && s.get_char(0) == '+' {
        assert(s@.skip(1) =~= s@.drop_first());
        match parse_digits(s, 1, 9_223_372_036_854_775_807) {
            None => None,
            Some(v) => Some(v as i64),
        }
    } else {
        assert(s@.skip(0) =~= s@);
        match parse_digits(s, 0, 9_223_372_036_854_775_807) {
            None => None,
            Some(v) => Some(v as i64),
        }
    }
}

} // verus!
