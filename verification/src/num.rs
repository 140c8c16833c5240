//! Decimal printing and parsing for the integer fields of the cache.
//!
//! The persisted document carries integer properties as JSON number tokens
//! and numeric-id identifier values as decimal strings; both directions are
//! implemented here and proved inverse to each other.
use vstd::prelude::*;
use vstd::string::*;

verus! {

/// The character for one decimal digit value.
pub open spec fn digit_char(d: nat) -> char {
    if d == 0 {
        '0'
    } else if d == 1 {
        '1'
    } else if d == 2 {
        '2'
    } else if d == 3 {
        '3'
    } else if d == 4 {
        '4'
    } else if d == 5 {
        '5'
    } else if d == 6 {
        '6'
    } else if d == 7 {
        '7'
    } else if d == 8 {
        '8'
    } else {
        '9'
    }
}

/// The canonical decimal form of a natural number: no sign, no leading
/// zeros (except for the single digit of zero itself).
pub open spec fn dec_digits(n: nat) -> Seq<char>
    decreases n,
{
    if n < 10 {
        seq![digit_char(n)]
    } else {
        dec_digits(n / 10).push(digit_char(n % 10))
    }
}

/// The canonical decimal form of a signed number: a minus sign before the
/// digits of the magnitude when negative.
pub open spec fn spec_i64_str(n: int) -> Seq<char> {
    if n < 0 {
        seq!['-'] + dec_digits((-n) as nat)
    } else {
        dec_digits(n as nat)
    }
}

pub open spec fn is_dec_digit(c: char) -> bool {
    48 <= c as u32 && c as u32 <= 57
}

pub open spec fn digit_val(c: char) -> nat {
    (c as u32 - 48) as nat
}

pub open spec fn all_digits(s: Seq<char>) -> bool {
    forall|i: int| 0 <= i < s.len() ==> is_dec_digit(#[trigger] s[i])
}

/// The value of a digit string, most significant digit first.
pub open spec fn dec_val(s: Seq<char>) -> nat
    decreases s.len(),
{
    if s.len() == 0 {
        0
    } else {
        dec_val(s.drop_last()) * 10 + digit_val(s.last())
    }
}

/// What `str::parse::<u32>` accepts: an optional plus sign, then one or
/// more digits, with the value in range.
pub open spec fn spec_parse_u32(s: Seq<char>) -> Option<u32> {
    let body = if s.len() > 0 && s[0] == '+' {
        s.skip(1)
    } else {
        s
    };
    if body.len() > 0 && all_digits(body) && dec_val(body) <= 0xFFFF_FFFF {
        Some(dec_val(body) as u32)
    } else {
        None
    }
}

/// A signed decimal integer in `i64` range: an optional minus sign, then
/// one or more digits.  This is what an integer property field must hold.
pub open spec fn spec_parse_i64(s: Seq<char>) -> Option<i64> {
    if s.len() > 0 && s[0] == '-' {
        let body = s.skip(1);
        if body.len() > 0 && all_digits(body) && dec_val(body) <= 0x8000_0000_0000_0000 {
            Some((-(dec_val(body) as int)) as i64)
        } else {
            None
        }
    } else {
        if s.len() > 0 && all_digits(s) && dec_val(s) <= 0x7FFF_FFFF_FFFF_FFFF {
            Some(dec_val(s) as i64)
        } else {
            None
        }
    }
}

/// Relies on `String::push`: appends the given character to the string.
#[verifier::external_body]
pub(crate) fn push_char(s: &mut String, c: char)
    ensures
        final(s)@ == old(s)@.push(c),
{
    s.push(c);
}

fn digit_to_char(d: u64) -> (c: char)
    requires
        d < 10,
    ensures
        c == digit_char(d as nat),
{
    match d {
        0 => '0',
        1 => '1',
        2 => '2',
        3 => '3',
        4 => '4',
        5 => '5',
        6 => '6',
        7 => '7',
        8 => '8',
        _ => '9',
    }
}

pub fn u64_to_string(n: u64) -> (r: String)
    ensures
        r@ == dec_digits(n as nat),
{
    let mut digits: Vec<char> = Vec::new();
    let mut m: u64 = n;
    while m >= 10
        invariant
            dec_digits(n as nat) == dec_digits(m as nat) + digits@.reverse(),
        decreases m,
    {
        let ghost pre = digits@;
        let d: u64 = m % 10;
        digits.push(digit_to_char(d));
        proof {
            assert(digits@.reverse() =~= seq![digit_char(d as nat)] + pre.reverse());
            assert(dec_digits(m as nat) == dec_digits((m / 10) as nat).push(
                digit_char((m % 10) as nat),
            ));
            assert(dec_digits((m / 10) as nat).push(digit_char(d as nat)) + pre.reverse()
                =~= dec_digits((m / 10) as nat) + digits@.reverse());
        }
        m = m / 10;
    }
    let ghost pre = digits@;
    digits.push(digit_to_char(m));
    proof {
        assert(dec_digits(m as nat) == seq![digit_char(m as nat)]);
        assert(digits@.reverse() =~= seq![digit_char(m as nat)] + pre.reverse());
        assert(dec_digits(n as nat) =~= digits@.reverse());
    }
    let mut out = String::new();
    let mut i: usize = 0;
    while i < digits.len()
        invariant
            i <= digits@.len(),
            dec_digits(n as nat) == digits@.reverse(),
            out@ == digits@.reverse().take(i as int),
        decreases digits@.len() - i,
    {
        let c: char = digits[digits.len() - 1 - i];
        push_char(&mut out, c);
        proof {
            assert(digits@.reverse()[i as int] == c);
            assert(digits@.reverse().take(i + 1) =~= digits@.reverse().take(i as int).push(c));
        }
        i = i + 1;
    }
    proof {
        assert(digits@.reverse().take(digits@.len() as int) =~= digits@.reverse());
    }
    out
}

pub fn i64_to_string(n: i64) -> (r: String)
    ensures
        r@ == spec_i64_str(n as int),
{
    if n >= 0 {
        u64_to_string(n as u64)
    } else {
        let mag: u64 = ((-(n + 1)) as u64) + 1;
        assert(mag as int == -(n as int));
        let digs = u64_to_string(mag);
        let mut out = String::new();
        push_char(&mut out, '-');
        out.append(digs.as_str());
        proof {
            assert(out@ =~= seq!['-'] + dec_digits(mag as nat));
        }
        out
    }
}

fn char_digit_val(c: char) -> (r: Option<u64>)
    ensures
        match r {
            Some(v) => is_dec_digit(c) && v == digit_val(c),
            None => !is_dec_digit(c),
        },
{
    let u = c as u32;
    if 48 <= u && u <= 57 {
        Some((u - 48) as u64)
    } else {
        None
    }
}

/// The value of a digit prefix never exceeds the value of the whole string.
proof fn lemma_dec_val_prefix_le(s: Seq<char>, i: int)
    requires
        0 <= i <= s.len(),
    ensures
        dec_val(s.take(i)) <= dec_val(s),
    decreases s.len(),
{
    if i < s.len() {
        assert(s.drop_last().take(i) =~= s.take(i));
        lemma_dec_val_prefix_le(s.drop_last(), i);
        assert(dec_val(s.drop_last()) <= dec_val(s.drop_last()) * 10) by {
            let v = dec_val(s.drop_last());
            assert(v * 10 == v + v * 9) by (nonlinear_arith);
        }
    } else {
        assert(s.take(i) =~= s);
    }
}

/// Reads the digit run `s[from..]` as a decimal value, refusing an empty
/// run, a non-digit, or a value above `cap`.
fn dec_value_capped(s: &str, from: usize, cap: u64) -> (r: Option<u64>)
    requires
        from <= s@.len(),
    ensures
        ({
            let body = s@.skip(from as int);
            match r {
                Some(v) => body.len() > 0 && all_digits(body) && dec_val(body) == v && v <= cap,
                None => !(body.len() > 0 && all_digits(body) && dec_val(body) <= cap),
            }
        }),
{
    let ghost body = s@.skip(from as int);
    let len = s.unicode_len();
    if from == len {
        return None;
    }
    let mut acc: u64 = 0;
    let mut j: usize = from;
    while j < len
        invariant
            from <= j <= len,
            len == s@.len(),
            body == s@.skip(from as int),
            all_digits(body.take(j - from)),
            acc == dec_val(body.take(j - from)),
            acc <= cap,
        decreases len - j,
    {
        let c = s.get_char(j);
        proof {
            assert(body[(j - from) as int] == s@[j as int]);
        }
        let d: u64 = match char_digit_val(c) {
            Some(d) => d,
            None => {
                proof {
                    assert(!is_dec_digit(body[(j - from) as int]));
                }
                return None;
            },
        };
        let ghost taken = body.take(j - from);
        proof {
            assert(body.take(j - from + 1) =~= taken.push(c));
            assert(body.take(j - from + 1).drop_last() =~= taken);
            assert(dec_val(body.take(j - from + 1)) == dec_val(taken) * 10 + digit_val(c));
        }
        if acc > cap / 10 || (acc == cap / 10 && d > cap % 10) {
            proof {
                assert(cap == (cap / 10) * 10 + cap % 10);
                assert(dec_val(body.take(j - from + 1)) > cap) by {
                    if acc > cap / 10 {
                        assert(acc * 10 >= (cap / 10) * 10 + 10) by (nonlinear_arith)
                            requires
                                acc >= cap / 10 + 1,
                        ;
                    }
                };
                lemma_dec_val_prefix_le(body, j - from + 1);
            }
            return None;
        }
        proof {
            assert(acc * 10 + d <= cap) by (nonlinear_arith)
                requires
                    acc <= cap / 10,
                    acc == cap / 10 ==> d <= cap % 10,
                    d < 10,
                    cap == (cap / 10) * 10 + cap % 10,
            ;
        }
        acc = acc * 10 + d;
        j = j + 1;
    }
    proof {
        assert(body.take(len - from) =~= body);
    }
    Some(acc)
}

/// What `str::parse::<u32>` does on the identifier value of a numeric-id key.
pub fn parse_u32_str(s: &str) -> (r: Option<u32>)
    ensures
        r == spec_parse_u32(s@),
{
    let len = s.unicode_len();
    let from: usize = if len > 0 && s.get_char(0) == '+' {
        1
    } else {
        0
    };
    proof {
        if !(len > 0 && s@[0] == '+') {
            assert(s@.skip(0) =~= s@);
        }
    }
    match dec_value_capped(s, from, 0xFFFF_FFFF) {
        Some(v) => Some(v as u32),
        None => None,
    }
}

/// Reads a whole string as a signed decimal `i64`.
pub fn parse_i64_str(s: &str) -> (r: Option<i64>)
    ensures
        r == spec_parse_i64(s@),
{
    let len = s.unicode_len();
    if len > 0 && s.get_char(0) == '-' {
        match dec_value_capped(s, 1, 0x8000_0000_0000_0000) {
            Some(v) => {
                if v == 0x8000_0000_0000_0000 {
                    Some(i64::MIN)
                } else {
                    Some(-(v as i64))
                }
            },
            None => None,
        }
    } else {
        proof {
            assert(s@.skip(0) =~= s@);
        }
        match dec_value_capped(s, 0, 0x7FFF_FFFF_FFFF_FFFF) {
            Some(v) => Some(v as i64),
            None => None,
        }
    }
}

/// The digits of a number are digits, and there is at least one of them.
pub proof fn lemma_dec_digits_wf(n: nat)
    ensures
        all_digits(dec_digits(n)),
        dec_digits(n).len() >= 1,
    decreases n,
{
    if n >= 10 {
        lemma_dec_digits_wf(n / 10);
    }
}

proof fn lemma_digit_char_val(d: nat)
    requires
        d < 10,
    ensures
        digit_val(digit_char(d)) == d,
        is_dec_digit(digit_char(d)),
{
}

/// Reading the canonical digits of a number gives the number back.
pub proof fn lemma_dec_val_of_digits(n: nat)
    ensures
        dec_val(dec_digits(n)) == n,
    decreases n,
{
    if n < 10 {
        let s = dec_digits(n);
        lemma_digit_char_val(n);
        assert(s.drop_last() =~= Seq::<char>::empty());
        assert(dec_val(s.drop_last()) == 0);
        assert(dec_val(s) == dec_val(s.drop_last()) * 10 + digit_val(s.last()));
    } else {
        lemma_dec_val_of_digits(n / 10);
        lemma_digit_char_val(n % 10);
        let s = dec_digits(n);
        assert(s == dec_digits(n / 10).push(digit_char(n % 10)));
        assert(s.drop_last() =~= dec_digits(n / 10));
        assert(s.last() == digit_char(n % 10));
        assert(dec_val(s) == dec_val(s.drop_last()) * 10 + digit_val(s.last()));
        assert((n / 10) * 10 + n % 10 == n);
    }
}

/// Printing an `i64` and reading it back is the identity.
pub proof fn lemma_i64_round_trip(v: i64)
    ensures
        spec_parse_i64(spec_i64_str(v as int)) == Some(v),
{
    if v >= 0 {
        let s = dec_digits(v as nat);
        lemma_dec_digits_wf(v as nat);
        lemma_dec_val_of_digits(v as nat);
        assert(is_dec_digit(s[0]));
        assert(s[0] != '-');
    } else {
        let mag = (-(v as int)) as nat;
        let s = seq!['-'] + dec_digits(mag);
        lemma_dec_digits_wf(mag);
        lemma_dec_val_of_digits(mag);
        assert(s[0] == '-');
        assert(s.skip(1) =~= dec_digits(mag));
    }
}

/// Printing a `u32` and reading it back is the identity.
pub proof fn lemma_u32_round_trip(v: u32)
    ensures
        spec_parse_u32(dec_digits(v as nat)) == Some(v),
{
    let s = dec_digits(v as nat);
    lemma_dec_digits_wf(v as nat);
    lemma_dec_val_of_digits(v as nat);
    assert(is_dec_digit(s[0]));
    assert(s[0] != '+');
}


/// The end of the run of decimal digits starting at `i`.
pub open spec fn digit_run_end(s: Seq<char>, i: int) -> int
    decreases s.len() - i,
{
    if 0 <= i < s.len() && is_dec_digit(s[i]) {
        digit_run_end(s, i + 1)
    } else {
        i
    }
}

/// What may follow a number's fraction: nothing, or an exponent that runs
/// to the end.
pub open spec fn exp_tail(s: Seq<char>, i: int) -> bool {
    if i == s.len() {
        true
    } else if s[i] == 'e' || s[i] == 'E' {
        let j = if i + 1 < s.len() && (s[i + 1] == '+' || s[i + 1] == '-') {
            i + 2
        } else {
            i + 1
        };
        let k = digit_run_end(s, j);
        k > j && k == s.len()
    } else {
        false
    }
}

/// What may follow a number's integer part: nothing, a fraction, an
/// exponent, or both in that order.
pub open spec fn frac_tail(s: Seq<char>, i: int) -> bool {
    if 0 <= i < s.len() && s[i] == '.' {
        let k = digit_run_end(s, i + 1);
        k > i + 1 && exp_tail(s, k)
    } else {
        exp_tail(s, i)
    }
}

/// The JSON number grammar: an optional minus sign, an integer part with
/// no leading zero, then optionally a fraction and an exponent.  The
/// floating-point descriptor fields of a record must hold such a token for
/// the record to serialize into valid JSON.
pub open spec fn is_number_token(s: Seq<char>) -> bool {
    let start: int = if s.len() > 0 && s[0] == '-' {
        1
    } else {
        0
    };
    if start < s.len() && s[start] == '0' {
        frac_tail(s, start + 1)
    } else {
        let k = digit_run_end(s, start);
        k > start && frac_tail(s, k)
    }
}

pub(crate) fn digit_run_end_str(s: &str, i: usize) -> (j: usize)
    requires
        i <= s@.len(),
    ensures
        i <= j <= s@.len(),
        j == digit_run_end(s@, i as int),
{
    let n = s.unicode_len();
    let mut j = i;
    let mut stop = false;
    while !stop && j < n
        invariant
            i <= j <= n,
            n == s@.len(),
            digit_run_end(s@, i as int) == digit_run_end(s@, j as int),
            stop ==> digit_run_end(s@, j as int) == j,
        decreases n - j, if stop { 0int } else { 1int },
    {
        let c = s.get_char(j);
        let u = c as u32;
        if 48 <= u && u <= 57 {
            j = j + 1;
        } else {
            stop = true;
        }
    }
    j
}

fn exp_tail_str(s: &str, i: usize) -> (r: bool)
    requires
        i <= s@.len(),
    ensures
        r == exp_tail(s@, i as int),
{
    let n = s.unicode_len();
    if i == n {
        return true;
    }
    let c = s.get_char(i);
    if c == 'e' || c == 'E' {
        let j: usize = if i + 1 < n && (s.get_char(i + 1) == '+' || s.get_char(i + 1) == '-') {
            i + 2
        } else {
            i + 1
        };
        let k = digit_run_end_str(s, j);
        k > j && k == n
    } else {
        false
    }
}

fn frac_tail_str(s: &str, i: usize) -> (r: bool)
    requires
        i <= s@.len(),
    ensures
        r == frac_tail(s@, i as int),
{
    let n = s.unicode_len();
    if i < n && s.get_char(i) == '.' {
        let k = digit_run_end_str(s, i + 1);
        k > i + 1 && exp_tail_str(s, k)
    } else {
        exp_tail_str(s, i)
    }
}

/// Checks a string against the JSON number grammar.
pub fn is_number_token_str(s: &str) -> (r: bool)
    ensures
        r == is_number_token(s@),
{
    let n = s.unicode_len();
    let start: usize = if n > 0 && s.get_char(0) == '-' {
        1
    } else {
        0
    };
    if start < n && s.get_char(start) == '0' {
        frac_tail_str(s, start + 1)
    } else {
        let k = digit_run_end_str(s, start);
        k > start && frac_tail_str(s, k)
    }
}


/// A digit run never ends before it starts.
pub proof fn lemma_digit_run_end_ge(s: Seq<char>, i: int)
    ensures
        digit_run_end(s, i) >= i,
    decreases s.len() - i,
{
    if 0 <= i < s.len() && is_dec_digit(s[i]) {
        lemma_digit_run_end_ge(s, i + 1);
    }
}
} // verus!
