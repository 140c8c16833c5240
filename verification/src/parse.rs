//! Reading JSON text back into the structured document.
//!
//! A recursive-descent reader for the persisted document's shape: the root
//! object with its `cache` array of entry objects over scalar fields.
//! Syntax faults fail with `MalformedDocument`, a root object without the
//! `cache` array with `MissingField`, and a `cache` element that is not an
//! object or lacks a mandatory field with `MalformedEntry`.  Unknown keys
//! are tolerated with a value of any shape.
use vstd::prelude::*;
use vstd::string::*;

use crate::CacheError;
use crate::doc::Atom;
use crate::doc::AtomM;
use crate::doc::JsonDoc;
use crate::doc::EntryM;
use crate::doc::JsonEntry;
use crate::doc::RawProps;
use crate::doc::RawPropsM;
use crate::ident::str_eq;
use crate::num::push_char;

verus! {

/// A JSON whitespace character.
pub open spec fn is_ws(c: char) -> bool {
    c == ' ' || c == '\t' || c == '\n' || c == '\r'
}

/// The position of the first non-whitespace character at or after `i`.
pub open spec fn spec_skip_ws(s: Seq<char>, i: int) -> int
    decreases s.len() - i,
{
    if 0 <= i < s.len() && is_ws(s[i]) {
        spec_skip_ws(s, i + 1)
    } else {
        i
    }
}

/// Moves past spaces, tabs and line breaks.
fn skip_ws(s: &str, i: usize) -> (j: usize)
    requires
        i <= s@.len(),
    ensures
        i <= j <= s@.len(),
        j == spec_skip_ws(s@, i as int),
{
    let n = s.unicode_len();
    let mut j = i;
    let mut stop = false;
    while !stop && j < n
        invariant
            i <= j <= n,
            n == s@.len(),
            spec_skip_ws(s@, i as int) == spec_skip_ws(s@, j as int),
            stop ==> spec_skip_ws(s@, j as int) == j,
        decreases n - j, if stop { 0int } else { 1int },
    {
        let c = s.get_char(j);
        if c == ' ' || c == '\t' || c == '\n' || c == '\r' {
            j = j + 1;
        } else {
            stop = true;
        }
    }
    j
}

/// The value of a hexadecimal digit character, upper or lower case.
pub open spec fn spec_hex_val(c: char) -> Option<int> {
    let u = c as u32;
    if 48 <= u && u <= 57 {
        Some((u - 48) as int)
    } else if 97 <= u && u <= 102 {
        Some((u - 97 + 10) as int)
    } else if 65 <= u && u <= 70 {
        Some((u - 65 + 10) as int)
    } else {
        None
    }
}

/// The character that `char::from_u32` returns for a valid code point:
/// the result depends on the code alone.
pub uninterp spec fn char_of(code: int) -> char;

fn hex_val(c: char) -> (r: Option<u32>)
    ensures
        match r {
            Some(v) => v < 16 && spec_hex_val(c) == Some(v as int),
            None => spec_hex_val(c) is None,
        },
{
    let u = c as u32;
    if 48 <= u && u <= 57 {
        Some(u - 48)
    } else if 97 <= u && u <= 102 {
        Some(u - 97 + 10)
    } else if 65 <= u && u <= 70 {
        Some(u - 65 + 10)
    } else {
        None
    }
}

/// Relies on `char::from_u32`: `Some` exactly for a valid scalar value
/// (not a surrogate code, at most the largest code point), carrying that
/// value; the result is a function of the code alone, named `char_of`.
#[verifier::external_body]
fn char_from_u32(code: u32) -> (r: Option<char>)
    ensures
        match r {
            Some(c) => c == char_of(code as int) && c as u32 == code && !(0xD800 <= code
                < 0xE000) && code <= 0x10FFFF,
            None => 0xD800 <= code < 0xE000 || code > 0x10FFFF,
        },
{
    char::from_u32(code)
}

/// One `\uXXXX` escape (possibly a surrogate pair) at the backslash
/// position `j`, continuing with the rest of the string body.
pub open spec fn spec_string_unicode(s: Seq<char>, j: int, acc: Seq<char>) -> Result<
    (Seq<char>, int),
    CacheError,
>
    decreases s.len() - j, 0int,
{
    if s.len() - j < 6 {
        Err(CacheError::MalformedDocument)
    } else {
        match (spec_hex_val(s[j + 2]), spec_hex_val(s[j + 3]), spec_hex_val(s[j + 4]), spec_hex_val(
            s[j + 5],
        )) {
            (Some(h0), Some(h1), Some(h2), Some(h3)) => {
                let code = h0 * 4096 + h1 * 256 + h2 * 16 + h3;
                if 0xD800 <= code && code < 0xDC00 {
                    if s.len() - j < 12 || s[j + 6] != '\\' || s[j + 7] != 'u' {
                        Err(CacheError::MalformedDocument)
                    } else {
                        match (spec_hex_val(s[j + 8]), spec_hex_val(s[j + 9]), spec_hex_val(
                            s[j + 10],
                        ), spec_hex_val(s[j + 11])) {
                            (Some(l0), Some(l1), Some(l2), Some(l3)) => {
                                let low = l0 * 4096 + l1 * 256 + l2 * 16 + l3;
                                if !(0xDC00 <= low && low < 0xE000) {
                                    Err(CacheError::MalformedDocument)
                                } else {
                                    let combined = 0x10000 + (code - 0xD800) * 0x400 + (low
                                        - 0xDC00);
                                    spec_string_body(s, j + 12, acc.push(char_of(combined)))
                                }
                            },
                            _ => Err(CacheError::MalformedDocument),
                        }
                    }
                } else if 0xDC00 <= code && code < 0xE000 {
                    Err(CacheError::MalformedDocument)
                } else {
                    spec_string_body(s, j + 6, acc.push(char_of(code)))
                }
            },
            _ => Err(CacheError::MalformedDocument),
        }
    }
}

/// The body of a JSON string from position `j` (after the opening quote),
/// with `acc` the characters decoded so far: the decoded string and the
/// position after the closing quote.
pub open spec fn spec_string_body(s: Seq<char>, j: int, acc: Seq<char>) -> Result<
    (Seq<char>, int),
    CacheError,
>
    decreases s.len() - j, 1int,
{
    if !(0 <= j < s.len()) {
        Err(CacheError::MalformedDocument)
    } else {
        let c = s[j];
        if c == '"' {
            Ok((acc, j + 1))
        } else if c == '\\' {
            if j + 1 >= s.len() {
                Err(CacheError::MalformedDocument)
            } else {
                let e = s[j + 1];
                if e == '"' || e == '\\' || e == '/' {
                    spec_string_body(s, j + 2, acc.push(e))
                } else if e == 'n' {
                    spec_string_body(s, j + 2, acc.push('\n'))
                } else if e == 'r' {
                    spec_string_body(s, j + 2, acc.push('\r'))
                } else if e == 't' {
                    spec_string_body(s, j + 2, acc.push('\t'))
                } else if e == 'b' {
                    spec_string_body(s, j + 2, acc.push('\u{0008}'))
                } else if e == 'f' {
                    spec_string_body(s, j + 2, acc.push('\u{000C}'))
                } else if e == 'u' {
                    spec_string_unicode(s, j, acc)
                } else {
                    Err(CacheError::MalformedDocument)
                }
            }
        } else {
            spec_string_body(s, j + 1, acc.push(c))
        }
    }
}

/// A JSON string starting at the opening quote: the decoded text and the
/// position after the closing quote.
pub open spec fn spec_parse_string(s: Seq<char>, i: int) -> Result<(Seq<char>, int), CacheError> {
    if !(0 <= i < s.len() && s[i] == '"') {
        Err(CacheError::MalformedDocument)
    } else {
        spec_string_body(s, i + 1, Seq::<char>::empty())
    }
}

/// Reads a JSON string starting at the opening quote.  Handles the short
/// escapes and `\uXXXX`, including surrogate pairs for code points beyond
/// the basic plane; a lone surrogate fails the document.
fn parse_string(s: &str, i: usize) -> (r: Result<(String, usize), CacheError>)
    requires
        i <= s@.len(),
    ensures
        (match r {
            Ok(p) => Ok::<(Seq<char>, int), CacheError>((p.0@, p.1 as int)),
            Err(e) => Err(e),
        }) == spec_parse_string(s@, i as int),
        match r {
            Ok(p) => i < p.1 <= s@.len(),
            Err(e) => e == CacheError::MalformedDocument,
        },
{
    let n = s.unicode_len();
    if i >= n || s.get_char(i) != '"' {
        return Err(CacheError::MalformedDocument);
    }
    let mut out = String::new();
    let mut j = i + 1;
    while j < n
        invariant
            i < j <= n,
            n == s@.len(),
            spec_parse_string(s@, i as int) == spec_string_body(s@, j as int, out@),
        decreases n - j,
    {
        let ghost jpre = j as int;
        let ghost opre = out@;
        let c = s.get_char(j);
        if c == '"' {
            return Ok((out, j + 1));
        } else if c == '\\' {
            if j + 1 >= n {
                return Err(CacheError::MalformedDocument);
            }
            let e = s.get_char(j + 1);
            if e == '"' || e == '\\' || e == '/' {
                push_char(&mut out, e);
                j = j + 2;
            } else if e == 'n' {
                push_char(&mut out, '\n');
                j = j + 2;
            } else if e == 'r' {
                push_char(&mut out, '\r');
                j = j + 2;
            } else if e == 't' {
                push_char(&mut out, '\t');
                j = j + 2;
            } else if e == 'b' {
                push_char(&mut out, '\u{0008}');
                j = j + 2;
            } else if e == 'f' {
                push_char(&mut out, '\u{000C}');
                j = j + 2;
            } else if e == 'u' {
                if n - j < 6 {
                    return Err(CacheError::MalformedDocument);
                }
                let h0 = match hex_val(s.get_char(j + 2)) {
                    Some(v) => v,
                    None => {
                        return Err(CacheError::MalformedDocument);
                    },
                };
                let h1 = match hex_val(s.get_char(j + 3)) {
                    Some(v) => v,
                    None => {
                        return Err(CacheError::MalformedDocument);
                    },
                };
                let h2 = match hex_val(s.get_char(j + 4)) {
                    Some(v) => v,
                    None => {
                        return Err(CacheError::MalformedDocument);
                    },
                };
                let h3 = match hex_val(s.get_char(j + 5)) {
                    Some(v) => v,
                    None => {
                        return Err(CacheError::MalformedDocument);
                    },
                };
                let code: u32 = h0 * 4096 + h1 * 256 + h2 * 16 + h3;
                if 0xD800 <= code && code < 0xDC00 {
                    // a high surrogate: its low half must follow directly
                    if n - j < 12 || s.get_char(j + 6) != '\\' || s.get_char(j + 7) != 'u' {
                        return Err(CacheError::MalformedDocument);
                    }
                    let l0 = match hex_val(s.get_char(j + 8)) {
                        Some(v) => v,
                        None => {
                            return Err(CacheError::MalformedDocument);
                        },
                    };
                    let l1 = match hex_val(s.get_char(j + 9)) {
                        Some(v) => v,
                        None => {
                            return Err(CacheError::MalformedDocument);
                        },
                    };
                    let l2 = match hex_val(s.get_char(j + 10)) {
                        Some(v) => v,
                        None => {
                            return Err(CacheError::MalformedDocument);
                        },
                    };
                    let l3 = match hex_val(s.get_char(j + 11)) {
                        Some(v) => v,
                        None => {
                            return Err(CacheError::MalformedDocument);
                        },
                    };
                    let low: u32 = l0 * 4096 + l1 * 256 + l2 * 16 + l3;
                    if !(0xDC00 <= low && low < 0xE000) {
                        return Err(CacheError::MalformedDocument);
                    }
                    let combined: u32 = 0x10000 + (code - 0xD800) * 0x400 + (low - 0xDC00);
                    match char_from_u32(combined) {
                        Some(ch) => {
                            push_char(&mut out, ch);
                        },
                        None => {
                            return Err(CacheError::MalformedDocument);
                        },
                    }
                    j = j + 12;
                } else if 0xDC00 <= code && code < 0xE000 {
                    // a low surrogate on its own
                    return Err(CacheError::MalformedDocument);
                } else {
                    match char_from_u32(code) {
                        Some(ch) => {
                            push_char(&mut out, ch);
                        },
                        None => {
                            return Err(CacheError::MalformedDocument);
                        },
                    }
                    j = j + 6;
                }
            } else {
                return Err(CacheError::MalformedDocument);
            }
        } else {
            push_char(&mut out, c);
            j = j + 1;
        }
        proof {
            if s@[jpre] == '\\' && s@[jpre + 1] == 'u' {
                assert(spec_string_body(s@, jpre, opre) == spec_string_unicode(s@, jpre, opre));
                assert(spec_string_unicode(s@, jpre, opre) == spec_string_body(
                    s@,
                    j as int,
                    out@,
                ));
            } else {
                assert(spec_string_body(s@, jpre, opre) == spec_string_body(s@, j as int, out@));
            }
        }
    }
    Err(CacheError::MalformedDocument)
}

/// The exponent part of a number token, if any, and the token's end.
pub open spec fn spec_number_exp(s: Seq<char>, i: int, j: int) -> Result<(Seq<char>, int), CacheError> {
    if j < s.len() && (s[j] == 'e' || s[j] == 'E') {
        let k = if j + 1 < s.len() && (s[j + 1] == '+' || s[j + 1] == '-') {
            j + 2
        } else {
            j + 1
        };
        let ee = crate::num::digit_run_end(s, k);
        if ee == k {
            Err(CacheError::MalformedDocument)
        } else {
            Ok((s.subrange(i, ee), ee))
        }
    } else {
        Ok((s.subrange(i, j), j))
    }
}

/// The fraction part of a number token, if any.
pub open spec fn spec_number_frac(s: Seq<char>, i: int, j: int) -> Result<(Seq<char>, int), CacheError> {
    if j < s.len() && s[j] == '.' {
        let fe = crate::num::digit_run_end(s, j + 1);
        if fe == j + 1 {
            Err(CacheError::MalformedDocument)
        } else {
            spec_number_exp(s, i, fe)
        }
    } else {
        spec_number_exp(s, i, j)
    }
}

/// A number token read from position `i`: its raw text and its end.
pub open spec fn spec_parse_number(s: Seq<char>, i: int) -> Result<(Seq<char>, int), CacheError> {
    let j0 = if i < s.len() && s[i] == '-' {
        i + 1
    } else {
        i
    };
    if !(j0 < s.len()) {
        Err(CacheError::MalformedDocument)
    } else {
        let c = s[j0];
        if c == '0' {
            spec_number_frac(s, i, j0 + 1)
        } else if 49 <= c as u32 && c as u32 <= 57 {
            spec_number_frac(s, i, crate::num::digit_run_end(s, j0))
        } else {
            Err(CacheError::MalformedDocument)
        }
    }
}

/// Reads a JSON number token, returning its raw text.
fn parse_number(s: &str, i: usize) -> (r: Result<(String, usize), CacheError>)
    requires
        i <= s@.len(),
    ensures
        (match r {
            Ok(p) => Ok::<(Seq<char>, int), CacheError>((p.0@, p.1 as int)),
            Err(e) => Err(e),
        }) == spec_parse_number(s@, i as int),
        match r {
            Ok(p) => i < p.1 <= s@.len(),
            Err(e) => e == CacheError::MalformedDocument,
        },
{
    let n = s.unicode_len();
    let mut j: usize = if i < n && s.get_char(i) == '-' {
        i + 1
    } else {
        i
    };
    if j >= n {
        return Err(CacheError::MalformedDocument);
    }
    let first = s.get_char(j);
    if first == '0' {
        j = j + 1;
    } else if '1' <= first && first <= '9' {
        proof {
            crate::num::lemma_digit_run_end_ge(s@, j + 1);
            assert(crate::num::digit_run_end(s@, j as int) == crate::num::digit_run_end(
                s@,
                j + 1,
            ));
        }
        j = crate::num::digit_run_end_str(s, j);
    } else {
        return Err(CacheError::MalformedDocument);
    }
    if j < n && s.get_char(j) == '.' {
        let fe = crate::num::digit_run_end_str(s, j + 1);
        if fe == j + 1 {
            return Err(CacheError::MalformedDocument);
        }
        j = fe;
    }
    if j < n && (s.get_char(j) == 'e' || s.get_char(j) == 'E') {
        let k: usize = if j + 1 < n && (s.get_char(j + 1) == '+' || s.get_char(j + 1) == '-') {
            j + 2
        } else {
            j + 1
        };
        let ee = crate::num::digit_run_end_str(s, k);
        if ee == k {
            return Err(CacheError::MalformedDocument);
        }
        j = ee;
    }
    let tok = s.substring_char(i, j).to_owned();
    proof {
        assert(tok@ == s@.subrange(i as int, j as int));
    }
    Ok((tok, j))
}

/// Whether the word stands at position `i` of the text.
pub open spec fn word_at(s: Seq<char>, i: int, w: Seq<char>) -> bool {
    i + w.len() <= s.len() && s.subrange(i, i + w.len()) == w
}

/// Checks that the given word stands at `i`.
fn match_word(s: &str, i: usize, w: &str) -> (r: Result<usize, CacheError>)
    requires
        i <= s@.len(),
    ensures
        match r {
            Ok(j) => word_at(s@, i as int, w@) && j == i + w@.len() && j <= s@.len() && (w@.len()
                > 0 ==> i < j),
            Err(e) => !word_at(s@, i as int, w@) && e == CacheError::MalformedDocument,
        },
{
    let n = s.unicode_len();
    let m = w.unicode_len();
    if n - i < m {
        return Err(CacheError::MalformedDocument);
    }
    let mut k: usize = 0;
    while k < m
        invariant
            k <= m,
            m <= n - i,
            i <= n,
            n == s@.len(),
            m == w@.len(),
            forall|q: int| 0 <= q < k ==> s@[i + q] == w@[q],
        decreases m - k,
    {
        if s.get_char(i + k) != w.get_char(k) {
            proof {
                assert(!word_at(s@, i as int, w@)) by {
                    if word_at(s@, i as int, w@) {
                        assert(s@.subrange(i as int, i + w@.len())[k as int] == w@[k as int]);
                    }
                }
            }
            return Err(CacheError::MalformedDocument);
        }
        k = k + 1;
    }
    proof {
        assert(s@.subrange(i as int, i + w@.len()) =~= w@);
    }
    Ok(i + m)
}

/// One scalar value at position `i`: its mathematical value and its end.
pub open spec fn spec_parse_atom(s: Seq<char>, i: int) -> Result<(AtomM, int), CacheError> {
    if !(0 <= i < s.len()) {
        Err(CacheError::MalformedDocument)
    } else {
        let c = s[i];
        if c == '"' {
            match spec_parse_string(s, i) {
                Ok(p) => Ok((AtomM::Text(p.0), p.1)),
                Err(e) => Err(e),
            }
        } else if c == 'n' {
            if word_at(s, i, "null"@) {
                Ok((AtomM::Null, i + "null"@.len()))
            } else {
                Err(CacheError::MalformedDocument)
            }
        } else if c == 't' {
            if word_at(s, i, "true"@) {
                Ok((AtomM::Truth(true), i + "true"@.len()))
            } else {
                Err(CacheError::MalformedDocument)
            }
        } else if c == 'f' {
            if word_at(s, i, "false"@) {
                Ok((AtomM::Truth(false), i + "false"@.len()))
            } else {
                Err(CacheError::MalformedDocument)
            }
        } else if c == '-' || crate::num::is_dec_digit(c) {
            match spec_parse_number(s, i) {
                Ok(p) => Ok((AtomM::NumTok(p.0), p.1)),
                Err(e) => Err(e),
            }
        } else {
            Err(CacheError::MalformedDocument)
        }
    }
}

/// Reads one scalar value: a string, a number, or a literal word.
fn parse_atom(s: &str, i: usize) -> (r: Result<(Atom, usize), CacheError>)
    requires
        i <= s@.len(),
    ensures
        (match r {
            Ok(p) => Ok::<(AtomM, int), CacheError>((p.0@, p.1 as int)),
            Err(e) => Err(e),
        }) == spec_parse_atom(s@, i as int),
        match r {
            Ok(p) => i < p.1 <= s@.len(),
            Err(e) => e == CacheError::MalformedDocument,
        },
{
    let n = s.unicode_len();
    if i >= n {
        return Err(CacheError::MalformedDocument);
    }
    let c = s.get_char(i);
    if c == '"' {
        match parse_string(s, i) {
            Ok((v, j)) => Ok((Atom::Text(v), j)),
            Err(e) => Err(e),
        }
    } else if c == 'n' {
        proof {
            reveal_strlit("null");
        }
        match match_word(s, i, "null") {
            Ok(j) => Ok((Atom::Null, j)),
            Err(e) => Err(e),
        }
    } else if c == 't' {
        proof {
            reveal_strlit("true");
        }
        match match_word(s, i, "true") {
            Ok(j) => Ok((Atom::Truth(true), j)),
            Err(e) => Err(e),
        }
    } else if c == 'f' {
        proof {
            reveal_strlit("false");
        }
        match match_word(s, i, "false") {
            Ok(j) => Ok((Atom::Truth(false), j)),
            Err(e) => Err(e),
        }
    } else if c == '-' || ('0' <= c && c <= '9') {
        match parse_number(s, i) {
            Ok((v, j)) => Ok((Atom::NumTok(v), j)),
            Err(e) => Err(e),
        }
    } else {
        Err(CacheError::MalformedDocument)
    }
}

/// One value of any shape at `i`, skipped: the position after it.
pub open spec fn spec_skip_value(s: Seq<char>, i: int) -> Result<int, CacheError>
    decreases s.len() - i, 0int,
{
    if !(0 <= i < s.len()) {
        Err(CacheError::MalformedDocument)
    } else if s[i] == '{' {
        let j = spec_skip_ws(s, i + 1);
        if j < s.len() && s[j] == '}' {
            Ok(j + 1)
        } else if i < j <= s.len() {
            spec_skip_members(s, j)
        } else {
            Err(CacheError::MalformedDocument)
        }
    } else if s[i] == '[' {
        let j = spec_skip_ws(s, i + 1);
        if j < s.len() && s[j] == ']' {
            Ok(j + 1)
        } else if i < j <= s.len() {
            spec_skip_elems(s, j)
        } else {
            Err(CacheError::MalformedDocument)
        }
    } else {
        match spec_parse_atom(s, i) {
            Ok(p) => Ok(p.1),
            Err(e) => Err(e),
        }
    }
}

/// The members of an object being skipped, from the key at `j` to the
/// position after the closing brace.
pub open spec fn spec_skip_members(s: Seq<char>, j: int) -> Result<int, CacheError>
    decreases s.len() - j, 1int,
{
    match spec_parse_string(s, j) {
        Err(e) => Err(e),
        Ok(kp) => {
            let j3 = spec_skip_ws(s, kp.1);
            if !(j3 < s.len() && s[j3] == ':') {
                Err(CacheError::MalformedDocument)
            } else {
                let j4 = spec_skip_ws(s, j3 + 1);
                if !(j < j4 <= s.len()) {
                    Err(CacheError::MalformedDocument)
                } else {
                    match spec_skip_value(s, j4) {
                        Err(e) => Err(e),
                        Ok(j5) => {
                            let j6 = spec_skip_ws(s, j5);
                            if j6 < s.len() && s[j6] == ',' {
                                let j7 = spec_skip_ws(s, j6 + 1);
                                if j < j7 <= s.len() {
                                    spec_skip_members(s, j7)
                                } else {
                                    Err(CacheError::MalformedDocument)
                                }
                            } else if j6 < s.len() && s[j6] == '}' {
                                Ok(j6 + 1)
                            } else {
                                Err(CacheError::MalformedDocument)
                            }
                        },
                    }
                }
            }
        },
    }
}

/// The elements of an array being skipped, from the value at `j` to the
/// position after the closing bracket.
pub open spec fn spec_skip_elems(s: Seq<char>, j: int) -> Result<int, CacheError>
    decreases s.len() - j, 1int,
{
    if !(0 <= j <= s.len()) {
        Err(CacheError::MalformedDocument)
    } else {
        match spec_skip_value(s, j) {
        Err(e) => Err(e),
        Ok(j5) => {
            let j6 = spec_skip_ws(s, j5);
            if j6 < s.len() && s[j6] == ',' {
                let j7 = spec_skip_ws(s, j6 + 1);
                if j < j7 <= s.len() {
                    spec_skip_elems(s, j7)
                } else {
                    Err(CacheError::MalformedDocument)
                }
            } else if j6 < s.len() && s[j6] == ']' {
                Ok(j6 + 1)
            } else {
                Err(CacheError::MalformedDocument)
            }
        },
        }
    }
}

/// Moves past one JSON value of any shape without keeping it: a scalar,
/// or an arbitrarily nested object or array.
fn skip_value(s: &str, i: usize) -> (r: Result<usize, CacheError>)
    requires
        i <= s@.len(),
    ensures
        (match r {
            Ok(j) => Ok::<int, CacheError>(j as int),
            Err(e) => Err(e),
        }) == spec_skip_value(s@, i as int),
        match r {
            Ok(j) => i < j <= s@.len(),
            Err(e) => e == CacheError::MalformedDocument,
        },
    decreases s@.len() - i,
{
    let n = s.unicode_len();
    if i >= n {
        return Err(CacheError::MalformedDocument);
    }
    let c = s.get_char(i);
    if c == '{' {
        let mut j = skip_ws(s, i + 1);
        if j < n && s.get_char(j) == '}' {
            return Ok(j + 1);
        }
        let mut done = false;
        while !done
            invariant
                i < j <= n,
                n == s@.len(),
                0 <= i < s@.len() && s@[i as int] == '{',
                !done ==> spec_skip_value(s@, i as int) == spec_skip_members(s@, j as int),
                done ==> spec_skip_value(s@, i as int) == Ok::<int, CacheError>(j as int),
            decreases n - j, if done { 0int } else { 1int },
        {
            let ghost jm = j as int;
            let (_key, j2) = match parse_string(s, j) {
                Ok(p) => p,
                Err(e) => {
                    return Err(e);
                },
            };
            j = skip_ws(s, j2);
            if !(j < n && s.get_char(j) == ':') {
                return Err(CacheError::MalformedDocument);
            }
            j = skip_ws(s, j + 1);
            let j3 = match skip_value(s, j) {
                Ok(v) => v,
                Err(e) => {
                    return Err(e);
                },
            };
            j = skip_ws(s, j3);
            if j < n && s.get_char(j) == ',' {
                j = skip_ws(s, j + 1);
            } else if j < n && s.get_char(j) == '}' {
                j = j + 1;
                done = true;
            } else {
                return Err(CacheError::MalformedDocument);
            }
            proof {
                if done {
                    assert(spec_skip_members(s@, jm) == Ok::<int, CacheError>(j as int));
                } else {
                    assert(spec_skip_members(s@, jm) == spec_skip_members(s@, j as int));
                }
            }
        }
        Ok(j)
    } else if c == '[' {
        let mut j = skip_ws(s, i + 1);
        if j < n && s.get_char(j) == ']' {
            return Ok(j + 1);
        }
        let mut done = false;
        while !done
            invariant
                i < j <= n,
                n == s@.len(),
                0 <= i < s@.len() && s@[i as int] == '[',
                !done ==> spec_skip_value(s@, i as int) == spec_skip_elems(s@, j as int),
                done ==> spec_skip_value(s@, i as int) == Ok::<int, CacheError>(j as int),
            decreases n - j, if done { 0int } else { 1int },
        {
            let ghost jm = j as int;
            let j3 = match skip_value(s, j) {
                Ok(v) => v,
                Err(e) => {
                    return Err(e);
                },
            };
            j = skip_ws(s, j3);
            if j < n && s.get_char(j) == ',' {
                j = skip_ws(s, j + 1);
            } else if j < n && s.get_char(j) == ']' {
                j = j + 1;
                done = true;
            } else {
                return Err(CacheError::MalformedDocument);
            }
            proof {
                if done {
                    assert(spec_skip_elems(s@, jm) == Ok::<int, CacheError>(j as int));
                } else {
                    assert(spec_skip_elems(s@, jm) == spec_skip_elems(s@, j as int));
                }
            }
        }
        Ok(j)
    } else {
        match parse_atom(s, i) {
            Ok((_, j)) => Ok(j),
            Err(e) => Err(e),
        }
    }
}

/// Whether the key names one of the schema's property columns.
pub open spec fn spec_is_schema_key(key: Seq<char>) -> bool {
    key == "atom_stereo_count"@
        || key == "bond_stereo_count"@
        || key == "canonical_smiles"@
        || key == "charge"@
        || key == "cid"@
        || key == "complexity"@
        || key == "conformer_count_3d"@
        || key == "conformer_model_rmsd_3d"@
        || key == "covalent_unit_count"@
        || key == "defined_atom_stereo_count"@
        || key == "defined_bond_stereo_count"@
        || key == "effective_rotor_count_3d"@
        || key == "exact_mass"@
        || key == "feature_acceptor_count_3d"@
        || key == "feature_anion_count_3d"@
        || key == "feature_cation_count_3d"@
        || key == "feature_count_3d"@
        || key == "feature_donor_count_3d"@
        || key == "feature_hydrophobe_count_3d"@
        || key == "feature_ring_count_3d"@
        || key == "fingerprint_2d"@
        || key == "hbond_acceptor_count"@
        || key == "hbond_donor_count"@
        || key == "heavy_atom_count"@
        || key == "inchi"@
        || key == "inchi_key"@
        || key == "isomeric_smiles"@
        || key == "isotope_atom_count"@
        || key == "iupac_name"@
        || key == "molecular_formula"@
        || key == "molecular_weight"@
        || key == "monoisotopic_mass"@
        || key == "rotatable_bond_count"@
        || key == "title"@
        || key == "tpsa"@
        || key == "undefined_atom_stereo_count"@
        || key == "undefined_bond_stereo_count"@
        || key == "volume_3d"@
        || key == "x_steric_quadrupole_3d"@
        || key == "xlogp"@
        || key == "y_steric_quadrupole_3d"@
        || key == "z_steric_quadrupole_3d"@
}

/// Whether the key names one of the schema's property columns.
fn is_schema_key(key: &str) -> (r: bool)
    ensures
        r == spec_is_schema_key(key@),
{
    str_eq(key, "atom_stereo_count")
        || str_eq(key, "bond_stereo_count")
        || str_eq(key, "canonical_smiles")
        || str_eq(key, "charge")
        || str_eq(key, "cid")
        || str_eq(key, "complexity")
        || str_eq(key, "conformer_count_3d")
        || str_eq(key, "conformer_model_rmsd_3d")
        || str_eq(key, "covalent_unit_count")
        || str_eq(key, "defined_atom_stereo_count")
        || str_eq(key, "defined_bond_stereo_count")
        || str_eq(key, "effective_rotor_count_3d")
        || str_eq(key, "exact_mass")
        || str_eq(key, "feature_acceptor_count_3d")
        || str_eq(key, "feature_anion_count_3d")
        || str_eq(key, "feature_cation_count_3d")
        || str_eq(key, "feature_count_3d")
        || str_eq(key, "feature_donor_count_3d")
        || str_eq(key, "feature_hydrophobe_count_3d")
        || str_eq(key, "feature_ring_count_3d")
        || str_eq(key, "fingerprint_2d")
        || str_eq(key, "hbond_acceptor_count")
        || str_eq(key, "hbond_donor_count")
        || str_eq(key, "heavy_atom_count")
        || str_eq(key, "inchi")
        || str_eq(key, "inchi_key")
        || str_eq(key, "isomeric_smiles")
        || str_eq(key, "isotope_atom_count")
        || str_eq(key, "iupac_name")
        || str_eq(key, "molecular_formula")
        || str_eq(key, "molecular_weight")
        || str_eq(key, "monoisotopic_mass")
        || str_eq(key, "rotatable_bond_count")
        || str_eq(key, "title")
        || str_eq(key, "tpsa")
        || str_eq(key, "undefined_atom_stereo_count")
        || str_eq(key, "undefined_bond_stereo_count")
        || str_eq(key, "volume_3d")
        || str_eq(key, "x_steric_quadrupole_3d")
        || str_eq(key, "xlogp")
        || str_eq(key, "y_steric_quadrupole_3d")
        || str_eq(key, "z_steric_quadrupole_3d")
}

struct Slots {
    atom_stereo_count: Option<Atom>,
    bond_stereo_count: Option<Atom>,
    canonical_smiles: Option<Atom>,
    charge: Option<Atom>,
    cid: Option<Atom>,
    complexity: Option<Atom>,
    conformer_count_3d: Option<Atom>,
    conformer_model_rmsd_3d: Option<Atom>,
    covalent_unit_count: Option<Atom>,
    defined_atom_stereo_count: Option<Atom>,
    defined_bond_stereo_count: Option<Atom>,
    effective_rotor_count_3d: Option<Atom>,
    exact_mass: Option<Atom>,
    feature_acceptor_count_3d: Option<Atom>,
    feature_anion_count_3d: Option<Atom>,
    feature_cation_count_3d: Option<Atom>,
    feature_count_3d: Option<Atom>,
    feature_donor_count_3d: Option<Atom>,
    feature_hydrophobe_count_3d: Option<Atom>,
    feature_ring_count_3d: Option<Atom>,
    fingerprint_2d: Option<Atom>,
    hbond_acceptor_count: Option<Atom>,
    hbond_donor_count: Option<Atom>,
    heavy_atom_count: Option<Atom>,
    inchi: Option<Atom>,
    inchi_key: Option<Atom>,
    isomeric_smiles: Option<Atom>,
    isotope_atom_count: Option<Atom>,
    iupac_name: Option<Atom>,
    molecular_formula: Option<Atom>,
    molecular_weight: Option<Atom>,
    monoisotopic_mass: Option<Atom>,
    rotatable_bond_count: Option<Atom>,
    title: Option<Atom>,
    tpsa: Option<Atom>,
    undefined_atom_stereo_count: Option<Atom>,
    undefined_bond_stereo_count: Option<Atom>,
    volume_3d: Option<Atom>,
    x_steric_quadrupole_3d: Option<Atom>,
    xlogp: Option<Atom>,
    y_steric_quadrupole_3d: Option<Atom>,
    z_steric_quadrupole_3d: Option<Atom>,
}

/// The mathematical value of the fields seen so far.
#[verifier::ext_equal]
pub struct SlotsM {
    pub atom_stereo_count: Option<AtomM>,
    pub bond_stereo_count: Option<AtomM>,
    pub canonical_smiles: Option<AtomM>,
    pub charge: Option<AtomM>,
    pub cid: Option<AtomM>,
    pub complexity: Option<AtomM>,
    pub conformer_count_3d: Option<AtomM>,
    pub conformer_model_rmsd_3d: Option<AtomM>,
    pub covalent_unit_count: Option<AtomM>,
    pub defined_atom_stereo_count: Option<AtomM>,
    pub defined_bond_stereo_count: Option<AtomM>,
    pub effective_rotor_count_3d: Option<AtomM>,
    pub exact_mass: Option<AtomM>,
    pub feature_acceptor_count_3d: Option<AtomM>,
    pub feature_anion_count_3d: Option<AtomM>,
    pub feature_cation_count_3d: Option<AtomM>,
    pub feature_count_3d: Option<AtomM>,
    pub feature_donor_count_3d: Option<AtomM>,
    pub feature_hydrophobe_count_3d: Option<AtomM>,
    pub feature_ring_count_3d: Option<AtomM>,
    pub fingerprint_2d: Option<AtomM>,
    pub hbond_acceptor_count: Option<AtomM>,
    pub hbond_donor_count: Option<AtomM>,
    pub heavy_atom_count: Option<AtomM>,
    pub inchi: Option<AtomM>,
    pub inchi_key: Option<AtomM>,
    pub isomeric_smiles: Option<AtomM>,
    pub isotope_atom_count: Option<AtomM>,
    pub iupac_name: Option<AtomM>,
    pub molecular_formula: Option<AtomM>,
    pub molecular_weight: Option<AtomM>,
    pub monoisotopic_mass: Option<AtomM>,
    pub rotatable_bond_count: Option<AtomM>,
    pub title: Option<AtomM>,
    pub tpsa: Option<AtomM>,
    pub undefined_atom_stereo_count: Option<AtomM>,
    pub undefined_bond_stereo_count: Option<AtomM>,
    pub volume_3d: Option<AtomM>,
    pub x_steric_quadrupole_3d: Option<AtomM>,
    pub xlogp: Option<AtomM>,
    pub y_steric_quadrupole_3d: Option<AtomM>,
    pub z_steric_quadrupole_3d: Option<AtomM>,
}

/// An optional scalar's mathematical value.
pub open spec fn view_opt_atom(o: Option<Atom>) -> Option<AtomM> {
    match o {
        Some(a) => Some(a@),
        None => None,
    }
}

spec fn slots_m(sl: Slots) -> SlotsM {
    SlotsM {
        atom_stereo_count: view_opt_atom(sl.atom_stereo_count),
        bond_stereo_count: view_opt_atom(sl.bond_stereo_count),
        canonical_smiles: view_opt_atom(sl.canonical_smiles),
        charge: view_opt_atom(sl.charge),
        cid: view_opt_atom(sl.cid),
        complexity: view_opt_atom(sl.complexity),
        conformer_count_3d: view_opt_atom(sl.conformer_count_3d),
        conformer_model_rmsd_3d: view_opt_atom(sl.conformer_model_rmsd_3d),
        covalent_unit_count: view_opt_atom(sl.covalent_unit_count),
        defined_atom_stereo_count: view_opt_atom(sl.defined_atom_stereo_count),
        defined_bond_stereo_count: view_opt_atom(sl.defined_bond_stereo_count),
        effective_rotor_count_3d: view_opt_atom(sl.effective_rotor_count_3d),
        exact_mass: view_opt_atom(sl.exact_mass),
        feature_acceptor_count_3d: view_opt_atom(sl.feature_acceptor_count_3d),
        feature_anion_count_3d: view_opt_atom(sl.feature_anion_count_3d),
        feature_cation_count_3d: view_opt_atom(sl.feature_cation_count_3d),
        feature_count_3d: view_opt_atom(sl.feature_count_3d),
        feature_donor_count_3d: view_opt_atom(sl.feature_donor_count_3d),
        feature_hydrophobe_count_3d: view_opt_atom(sl.feature_hydrophobe_count_3d),
        feature_ring_count_3d: view_opt_atom(sl.feature_ring_count_3d),
        fingerprint_2d: view_opt_atom(sl.fingerprint_2d),
        hbond_acceptor_count: view_opt_atom(sl.hbond_acceptor_count),
        hbond_donor_count: view_opt_atom(sl.hbond_donor_count),
        heavy_atom_count: view_opt_atom(sl.heavy_atom_count),
        inchi: view_opt_atom(sl.inchi),
        inchi_key: view_opt_atom(sl.inchi_key),
        isomeric_smiles: view_opt_atom(sl.isomeric_smiles),
        isotope_atom_count: view_opt_atom(sl.isotope_atom_count),
        iupac_name: view_opt_atom(sl.iupac_name),
        molecular_formula: view_opt_atom(sl.molecular_formula),
        molecular_weight: view_opt_atom(sl.molecular_weight),
        monoisotopic_mass: view_opt_atom(sl.monoisotopic_mass),
        rotatable_bond_count: view_opt_atom(sl.rotatable_bond_count),
        title: view_opt_atom(sl.title),
        tpsa: view_opt_atom(sl.tpsa),
        undefined_atom_stereo_count: view_opt_atom(sl.undefined_atom_stereo_count),
        undefined_bond_stereo_count: view_opt_atom(sl.undefined_bond_stereo_count),
        volume_3d: view_opt_atom(sl.volume_3d),
        x_steric_quadrupole_3d: view_opt_atom(sl.x_steric_quadrupole_3d),
        xlogp: view_opt_atom(sl.xlogp),
        y_steric_quadrupole_3d: view_opt_atom(sl.y_steric_quadrupole_3d),
        z_steric_quadrupole_3d: view_opt_atom(sl.z_steric_quadrupole_3d),
    }
}

/// No field seen yet.
pub open spec fn empty_slots() -> SlotsM {
    SlotsM {
        atom_stereo_count: None,
        bond_stereo_count: None,
        canonical_smiles: None,
        charge: None,
        cid: None,
        complexity: None,
        conformer_count_3d: None,
        conformer_model_rmsd_3d: None,
        covalent_unit_count: None,
        defined_atom_stereo_count: None,
        defined_bond_stereo_count: None,
        effective_rotor_count_3d: None,
        exact_mass: None,
        feature_acceptor_count_3d: None,
        feature_anion_count_3d: None,
        feature_cation_count_3d: None,
        feature_count_3d: None,
        feature_donor_count_3d: None,
        feature_hydrophobe_count_3d: None,
        feature_ring_count_3d: None,
        fingerprint_2d: None,
        hbond_acceptor_count: None,
        hbond_donor_count: None,
        heavy_atom_count: None,
        inchi: None,
        inchi_key: None,
        isomeric_smiles: None,
        isotope_atom_count: None,
        iupac_name: None,
        molecular_formula: None,
        molecular_weight: None,
        monoisotopic_mass: None,
        rotatable_bond_count: None,
        title: None,
        tpsa: None,
        undefined_atom_stereo_count: None,
        undefined_bond_stereo_count: None,
        volume_3d: None,
        x_steric_quadrupole_3d: None,
        xlogp: None,
        y_steric_quadrupole_3d: None,
        z_steric_quadrupole_3d: None,
    }
}

/// Records a scalar under its schema column, ignoring unknown keys.
pub open spec fn spec_assign_slot(acc: SlotsM, key: Seq<char>, a: AtomM) -> SlotsM {
    if key == "atom_stereo_count"@ {
        SlotsM { atom_stereo_count: Some(a), ..acc }
    } else if key == "bond_stereo_count"@ {
        SlotsM { bond_stereo_count: Some(a), ..acc }
    } else if key == "canonical_smiles"@ {
        SlotsM { canonical_smiles: Some(a), ..acc }
    } else if key == "charge"@ {
        SlotsM { charge: Some(a), ..acc }
    } else if key == "cid"@ {
        SlotsM { cid: Some(a), ..acc }
    } else if key == "complexity"@ {
        SlotsM { complexity: Some(a), ..acc }
    } else if key == "conformer_count_3d"@ {
        SlotsM { conformer_count_3d: Some(a), ..acc }
    } else if key == "conformer_model_rmsd_3d"@ {
        SlotsM { conformer_model_rmsd_3d: Some(a), ..acc }
    } else if key == "covalent_unit_count"@ {
        SlotsM { covalent_unit_count: Some(a), ..acc }
    } else if key == "defined_atom_stereo_count"@ {
        SlotsM { defined_atom_stereo_count: Some(a), ..acc }
    } else if key == "defined_bond_stereo_count"@ {
        SlotsM { defined_bond_stereo_count: Some(a), ..acc }
    } else if key == "effective_rotor_count_3d"@ {
        SlotsM { effective_rotor_count_3d: Some(a), ..acc }
    } else if key == "exact_mass"@ {
        SlotsM { exact_mass: Some(a), ..acc }
    } else if key == "feature_acceptor_count_3d"@ {
        SlotsM { feature_acceptor_count_3d: Some(a), ..acc }
    } else if key == "feature_anion_count_3d"@ {
        SlotsM { feature_anion_count_3d: Some(a), ..acc }
    } else if key == "feature_cation_count_3d"@ {
        SlotsM { feature_cation_count_3d: Some(a), ..acc }
    } else if key == "feature_count_3d"@ {
        SlotsM { feature_count_3d: Some(a), ..acc }
    } else if key == "feature_donor_count_3d"@ {
        SlotsM { feature_donor_count_3d: Some(a), ..acc }
    } else if key == "feature_hydrophobe_count_3d"@ {
        SlotsM { feature_hydrophobe_count_3d: Some(a), ..acc }
    } else if key == "feature_ring_count_3d"@ {
        SlotsM { feature_ring_count_3d: Some(a), ..acc }
    } else if key == "fingerprint_2d"@ {
        SlotsM { fingerprint_2d: Some(a), ..acc }
    } else if key == "hbond_acceptor_count"@ {
        SlotsM { hbond_acceptor_count: Some(a), ..acc }
    } else if key == "hbond_donor_count"@ {
        SlotsM { hbond_donor_count: Some(a), ..acc }
    } else if key == "heavy_atom_count"@ {
        SlotsM { heavy_atom_count: Some(a), ..acc }
    } else if key == "inchi"@ {
        SlotsM { inchi: Some(a), ..acc }
    } else if key == "inchi_key"@ {
        SlotsM { inchi_key: Some(a), ..acc }
    } else if key == "isomeric_smiles"@ {
        SlotsM { isomeric_smiles: Some(a), ..acc }
    } else if key == "isotope_atom_count"@ {
        SlotsM { isotope_atom_count: Some(a), ..acc }
    } else if key == "iupac_name"@ {
        SlotsM { iupac_name: Some(a), ..acc }
    } else if key == "molecular_formula"@ {
        SlotsM { molecular_formula: Some(a), ..acc }
    } else if key == "molecular_weight"@ {
        SlotsM { molecular_weight: Some(a), ..acc }
    } else if key == "monoisotopic_mass"@ {
        SlotsM { monoisotopic_mass: Some(a), ..acc }
    } else if key == "rotatable_bond_count"@ {
        SlotsM { rotatable_bond_count: Some(a), ..acc }
    } else if key == "title"@ {
        SlotsM { title: Some(a), ..acc }
    } else if key == "tpsa"@ {
        SlotsM { tpsa: Some(a), ..acc }
    } else if key == "undefined_atom_stereo_count"@ {
        SlotsM { undefined_atom_stereo_count: Some(a), ..acc }
    } else if key == "undefined_bond_stereo_count"@ {
        SlotsM { undefined_bond_stereo_count: Some(a), ..acc }
    } else if key == "volume_3d"@ {
        SlotsM { volume_3d: Some(a), ..acc }
    } else if key == "x_steric_quadrupole_3d"@ {
        SlotsM { x_steric_quadrupole_3d: Some(a), ..acc }
    } else if key == "xlogp"@ {
        SlotsM { xlogp: Some(a), ..acc }
    } else if key == "y_steric_quadrupole_3d"@ {
        SlotsM { y_steric_quadrupole_3d: Some(a), ..acc }
    } else if key == "z_steric_quadrupole_3d"@ {
        SlotsM { z_steric_quadrupole_3d: Some(a), ..acc }
    } else {
        acc
    }
}

/// Every mandatory schema field must have been seen; the collected row
/// and the given end position.
pub open spec fn spec_finish_props(acc: SlotsM, j: int) -> Result<(RawPropsM, int), CacheError> {
    if acc.atom_stereo_count is Some
        && acc.bond_stereo_count is Some
        && acc.canonical_smiles is Some
        && acc.charge is Some
        && acc.cid is Some
        && acc.complexity is Some
        && acc.conformer_count_3d is Some
        && acc.conformer_model_rmsd_3d is Some
        && acc.covalent_unit_count is Some
        && acc.defined_atom_stereo_count is Some
        && acc.defined_bond_stereo_count is Some
        && acc.effective_rotor_count_3d is Some
        && acc.exact_mass is Some
        && acc.feature_acceptor_count_3d is Some
        && acc.feature_anion_count_3d is Some
        && acc.feature_cation_count_3d is Some
        && acc.feature_count_3d is Some
        && acc.feature_donor_count_3d is Some
        && acc.feature_hydrophobe_count_3d is Some
        && acc.feature_ring_count_3d is Some
        && acc.fingerprint_2d is Some
        && acc.hbond_acceptor_count is Some
        && acc.hbond_donor_count is Some
        && acc.heavy_atom_count is Some
        && acc.inchi is Some
        && acc.inchi_key is Some
        && acc.isomeric_smiles is Some
        && acc.isotope_atom_count is Some
        && acc.iupac_name is Some
        && acc.molecular_formula is Some
        && acc.molecular_weight is Some
        && acc.monoisotopic_mass is Some
        && acc.rotatable_bond_count is Some
        && acc.title is Some
        && acc.tpsa is Some
        && acc.undefined_atom_stereo_count is Some
        && acc.undefined_bond_stereo_count is Some
        && acc.volume_3d is Some
        && acc.x_steric_quadrupole_3d is Some
        && acc.xlogp is Some
        && acc.y_steric_quadrupole_3d is Some
        && acc.z_steric_quadrupole_3d is Some {
        Ok((RawPropsM {
            atom_stereo_count: acc.atom_stereo_count.unwrap(),
            bond_stereo_count: acc.bond_stereo_count.unwrap(),
            canonical_smiles: acc.canonical_smiles.unwrap(),
            charge: acc.charge.unwrap(),
            cid: acc.cid.unwrap(),
            complexity: acc.complexity.unwrap(),
            conformer_count_3d: acc.conformer_count_3d.unwrap(),
            conformer_model_rmsd_3d: acc.conformer_model_rmsd_3d.unwrap(),
            covalent_unit_count: acc.covalent_unit_count.unwrap(),
            defined_atom_stereo_count: acc.defined_atom_stereo_count.unwrap(),
            defined_bond_stereo_count: acc.defined_bond_stereo_count.unwrap(),
            effective_rotor_count_3d: acc.effective_rotor_count_3d.unwrap(),
            exact_mass: acc.exact_mass.unwrap(),
            feature_acceptor_count_3d: acc.feature_acceptor_count_3d.unwrap(),
            feature_anion_count_3d: acc.feature_anion_count_3d.unwrap(),
            feature_cation_count_3d: acc.feature_cation_count_3d.unwrap(),
            feature_count_3d: acc.feature_count_3d.unwrap(),
            feature_donor_count_3d: acc.feature_donor_count_3d.unwrap(),
            feature_hydrophobe_count_3d: acc.feature_hydrophobe_count_3d.unwrap(),
            feature_ring_count_3d: acc.feature_ring_count_3d.unwrap(),
            fingerprint_2d: acc.fingerprint_2d.unwrap(),
            hbond_acceptor_count: acc.hbond_acceptor_count.unwrap(),
            hbond_donor_count: acc.hbond_donor_count.unwrap(),
            heavy_atom_count: acc.heavy_atom_count.unwrap(),
            inchi: acc.inchi.unwrap(),
            inchi_key: acc.inchi_key.unwrap(),
            isomeric_smiles: acc.isomeric_smiles.unwrap(),
            isotope_atom_count: acc.isotope_atom_count.unwrap(),
            iupac_name: acc.iupac_name.unwrap(),
            molecular_formula: acc.molecular_formula.unwrap(),
            molecular_weight: acc.molecular_weight.unwrap(),
            monoisotopic_mass: acc.monoisotopic_mass.unwrap(),
            rotatable_bond_count: acc.rotatable_bond_count.unwrap(),
            title: acc.title.unwrap(),
            tpsa: acc.tpsa.unwrap(),
            undefined_atom_stereo_count: acc.undefined_atom_stereo_count.unwrap(),
            undefined_bond_stereo_count: acc.undefined_bond_stereo_count.unwrap(),
            volume_3d: acc.volume_3d.unwrap(),
            x_steric_quadrupole_3d: acc.x_steric_quadrupole_3d.unwrap(),
            xlogp: acc.xlogp.unwrap(),
            y_steric_quadrupole_3d: acc.y_steric_quadrupole_3d.unwrap(),
            z_steric_quadrupole_3d: acc.z_steric_quadrupole_3d.unwrap(),
        }, j))
    } else {
        Err(CacheError::MalformedEntry)
    }
}

/// The members of a property object from the key at `j`, with `acc` the
/// fields seen so far.
pub open spec fn spec_props_loop(s: Seq<char>, j: int, acc: SlotsM) -> Result<
    (RawPropsM, int),
    CacheError,
>
    decreases s.len() - j,
{
    if !(0 <= j <= s.len()) {
        Err(CacheError::MalformedDocument)
    } else {
        match spec_parse_string(s, j) {
            Err(e) => Err(e),
            Ok(kp) => {
                let j3 = spec_skip_ws(s, kp.1);
                if !(j3 < s.len() && s[j3] == ':') {
                    Err(CacheError::MalformedDocument)
                } else {
                    let j4 = spec_skip_ws(s, j3 + 1);
                    if j4 < s.len() && (s[j4] == '{' || s[j4] == '[') {
                        match spec_skip_value(s, j4) {
                            Err(e) => Err(e),
                            Ok(j5) => if spec_is_schema_key(kp.0) {
                                Err(CacheError::MalformedEntry)
                            } else if j < j5 <= s.len() {
                                let j6 = spec_skip_ws(s, j5);
                                if j6 < s.len() && s[j6] == ',' {
                                    let j7 = spec_skip_ws(s, j6 + 1);
                                    if j < j7 <= s.len() {
                                        spec_props_loop(s, j7, acc)
                                    } else {
                                        Err(CacheError::MalformedDocument)
                                    }
                                } else if j6 < s.len() && s[j6] == '}' {
                                    spec_finish_props(acc, j6 + 1)
                                } else {
                                    Err(CacheError::MalformedDocument)
                                }
                            } else {
                                Err(CacheError::MalformedDocument)
                            },
                        }
                    } else {
                        match spec_parse_atom(s, j4) {
                            Err(e) => Err(e),
                            Ok(ap) => {
                                let acc2 = spec_assign_slot(acc, kp.0, ap.0);
                                if j < ap.1 <= s.len() {
                                    let j6 = spec_skip_ws(s, ap.1);
                                    if j6 < s.len() && s[j6] == ',' {
                                        let j7 = spec_skip_ws(s, j6 + 1);
                                        if j < j7 <= s.len() {
                                            spec_props_loop(s, j7, acc2)
                                        } else {
                                            Err(CacheError::MalformedDocument)
                                        }
                                    } else if j6 < s.len() && s[j6] == '}' {
                                        spec_finish_props(acc2, j6 + 1)
                                    } else {
                                        Err(CacheError::MalformedDocument)
                                    }
                                } else {
                                    Err(CacheError::MalformedDocument)
                                }
                            },
                        }
                    }
                }
            },
        }
    }
}

/// The property object of one entry at `i`: its field row and its end.
pub open spec fn spec_parse_props(s: Seq<char>, i: int) -> Result<(RawPropsM, int), CacheError> {
    if !(0 <= i < s.len() && s[i] == '{') {
        Err(CacheError::MalformedDocument)
    } else {
        let j = spec_skip_ws(s, i + 1);
        if j < s.len() && s[j] == '}' {
            spec_finish_props(empty_slots(), j + 1)
        } else if i < j <= s.len() {
            spec_props_loop(s, j, empty_slots())
        } else {
            Err(CacheError::MalformedDocument)
        }
    }
}

/// Reads the property object of one entry, collecting the schema fields
/// in any key order and tolerating unknown keys of any value shape.
fn parse_props(s: &str, i: usize) -> (r: Result<(RawProps, usize), CacheError>)
    requires
        i <= s@.len(),
    ensures
        (match r {
            Ok(p) => Ok::<(RawPropsM, int), CacheError>((p.0@, p.1 as int)),
            Err(e) => Err(e),
        }) == spec_parse_props(s@, i as int),
        match r {
            Ok(p) => i < p.1 <= s@.len(),
            Err(e) => e == CacheError::MalformedDocument || e == CacheError::MalformedEntry,
        },
{
    let n = s.unicode_len();
    if i >= n || s.get_char(i) != '{' {
        return Err(CacheError::MalformedDocument);
    }
    let mut slots = Slots {
        atom_stereo_count: None,
        bond_stereo_count: None,
        canonical_smiles: None,
        charge: None,
        cid: None,
        complexity: None,
        conformer_count_3d: None,
        conformer_model_rmsd_3d: None,
        covalent_unit_count: None,
        defined_atom_stereo_count: None,
        defined_bond_stereo_count: None,
        effective_rotor_count_3d: None,
        exact_mass: None,
        feature_acceptor_count_3d: None,
        feature_anion_count_3d: None,
        feature_cation_count_3d: None,
        feature_count_3d: None,
        feature_donor_count_3d: None,
        feature_hydrophobe_count_3d: None,
        feature_ring_count_3d: None,
        fingerprint_2d: None,
        hbond_acceptor_count: None,
        hbond_donor_count: None,
        heavy_atom_count: None,
        inchi: None,
        inchi_key: None,
        isomeric_smiles: None,
        isotope_atom_count: None,
        iupac_name: None,
        molecular_formula: None,
        molecular_weight: None,
        monoisotopic_mass: None,
        rotatable_bond_count: None,
        title: None,
        tpsa: None,
        undefined_atom_stereo_count: None,
        undefined_bond_stereo_count: None,
        volume_3d: None,
        x_steric_quadrupole_3d: None,
        xlogp: None,
        y_steric_quadrupole_3d: None,
        z_steric_quadrupole_3d: None,
    };
    proof {
        assert(slots_m(slots) =~~= empty_slots());
    }
    let mut j = skip_ws(s, i + 1);
    if j < n && s.get_char(j) == '}' {
        return finish_props(slots, j + 1, Ghost(i as int), Ghost(s@.len() as int));
    }
    let mut done = false;
    while !done
        invariant
            i < j <= n,
            n == s@.len(),
            0 <= i < s@.len() && s@[i as int] == '{',
            !done ==> spec_parse_props(s@, i as int) == spec_props_loop(
                s@,
                j as int,
                slots_m(slots),
            ),
            done ==> spec_parse_props(s@, i as int) == spec_finish_props(
                slots_m(slots),
                j as int,
            ),
        decreases n - j, if done { 0int } else { 1int },
    {
        let ghost jm = j as int;
        let ghost accpre = slots_m(slots);
        let (key, j2) = match parse_string(s, j) {
            Ok(p) => p,
            Err(e) => {
                return Err(e);
            },
        };
        j = skip_ws(s, j2);
        if !(j < n && s.get_char(j) == ':') {
            return Err(CacheError::MalformedDocument);
        }
        j = skip_ws(s, j + 1);
        if j < n && (s.get_char(j) == '{' || s.get_char(j) == '[') {
            let j3 = match skip_value(s, j) {
                Ok(v) => v,
                Err(e) => {
                    return Err(e);
                },
            };
            if is_schema_key(key.as_str()) {
                // a structured value where the schema demands a scalar
                return Err(CacheError::MalformedEntry);
            }
            j = skip_ws(s, j3);
            if j < n && s.get_char(j) == ',' {
                j = skip_ws(s, j + 1);
            } else if j < n && s.get_char(j) == '}' {
                j = j + 1;
                done = true;
            } else {
                return Err(CacheError::MalformedDocument);
            }
            proof {
                if done {
                    assert(spec_props_loop(s@, jm, accpre) == spec_finish_props(
                        slots_m(slots),
                        j as int,
                    ));
                } else {
                    assert(spec_props_loop(s@, jm, accpre) == spec_props_loop(
                        s@,
                        j as int,
                        slots_m(slots),
                    ));
                }
            }
            continue;
        }
        let (a, j3) = match parse_atom(s, j) {
            Ok(p) => p,
            Err(e) => {
                return Err(e);
            },
        };
        j = j3;
        if str_eq(key.as_str(), "atom_stereo_count") {
            slots.atom_stereo_count = Some(a);
        } else if str_eq(key.as_str(), "bond_stereo_count") {
            slots.bond_stereo_count = Some(a);
        } else if str_eq(key.as_str(), "canonical_smiles") {
            slots.canonical_smiles = Some(a);
        } else if str_eq(key.as_str(), "charge") {
            slots.charge = Some(a);
        } else if str_eq(key.as_str(), "cid") {
            slots.cid = Some(a);
        } else if str_eq(key.as_str(), "complexity") {
            slots.complexity = Some(a);
        } else if str_eq(key.as_str(), "conformer_count_3d") {
            slots.conformer_count_3d = Some(a);
        } else if str_eq(key.as_str(), "conformer_model_rmsd_3d") {
            slots.conformer_model_rmsd_3d = Some(a);
        } else if str_eq(key.as_str(), "covalent_unit_count") {
            slots.covalent_unit_count = Some(a);
        } else if str_eq(key.as_str(), "defined_atom_stereo_count") {
            slots.defined_atom_stereo_count = Some(a);
        } else if str_eq(key.as_str(), "defined_bond_stereo_count") {
            slots.defined_bond_stereo_count = Some(a);
        } else if str_eq(key.as_str(), "effective_rotor_count_3d") {
            slots.effective_rotor_count_3d = Some(a);
        } else if str_eq(key.as_str(), "exact_mass") {
            slots.exact_mass = Some(a);
        } else if str_eq(key.as_str(), "feature_acceptor_count_3d") {
            slots.feature_acceptor_count_3d = Some(a);
        } else if str_eq(key.as_str(), "feature_anion_count_3d") {
            slots.feature_anion_count_3d = Some(a);
        } else if str_eq(key.as_str(), "feature_cation_count_3d") {
            slots.feature_cation_count_3d = Some(a);
        } else if str_eq(key.as_str(), "feature_count_3d") {
            slots.feature_count_3d = Some(a);
        } else if str_eq(key.as_str(), "feature_donor_count_3d") {
            slots.feature_donor_count_3d = Some(a);
        } else if str_eq(key.as_str(), "feature_hydrophobe_count_3d") {
            slots.feature_hydrophobe_count_3d = Some(a);
        } else if str_eq(key.as_str(), "feature_ring_count_3d") {
            slots.feature_ring_count_3d = Some(a);
        } else if str_eq(key.as_str(), "fingerprint_2d") {
            slots.fingerprint_2d = Some(a);
        } else if str_eq(key.as_str(), "hbond_acceptor_count") {
            slots.hbond_acceptor_count = Some(a);
        } else if str_eq(key.as_str(), "hbond_donor_count") {
            slots.hbond_donor_count = Some(a);
        } else if str_eq(key.as_str(), "heavy_atom_count") {
            slots.heavy_atom_count = Some(a);
        } else if str_eq(key.as_str(), "inchi") {
            slots.inchi = Some(a);
        } else if str_eq(key.as_str(), "inchi_key") {
            slots.inchi_key = Some(a);
        } else if str_eq(key.as_str(), "isomeric_smiles") {
            slots.isomeric_smiles = Some(a);
        } else if str_eq(key.as_str(), "isotope_atom_count") {
            slots.isotope_atom_count = Some(a);
        } else if str_eq(key.as_str(), "iupac_name") {
            slots.iupac_name = Some(a);
        } else if str_eq(key.as_str(), "molecular_formula") {
            slots.molecular_formula = Some(a);
        } else if str_eq(key.as_str(), "molecular_weight") {
            slots.molecular_weight = Some(a);
        } else if str_eq(key.as_str(), "monoisotopic_mass") {
            slots.monoisotopic_mass = Some(a);
        } else if str_eq(key.as_str(), "rotatable_bond_count") {
            slots.rotatable_bond_count = Some(a);
        } else if str_eq(key.as_str(), "title") {
            slots.title = Some(a);
        } else if str_eq(key.as_str(), "tpsa") {
            slots.tpsa = Some(a);
        } else if str_eq(key.as_str(), "undefined_atom_stereo_count") {
            slots.undefined_atom_stereo_count = Some(a);
        } else if str_eq(key.as_str(), "undefined_bond_stereo_count") {
            slots.undefined_bond_stereo_count = Some(a);
        } else if str_eq(key.as_str(), "volume_3d") {
            slots.volume_3d = Some(a);
        } else if str_eq(key.as_str(), "x_steric_quadrupole_3d") {
            slots.x_steric_quadrupole_3d = Some(a);
        } else if str_eq(key.as_str(), "xlogp") {
            slots.xlogp = Some(a);
        } else if str_eq(key.as_str(), "y_steric_quadrupole_3d") {
            slots.y_steric_quadrupole_3d = Some(a);
        } else if str_eq(key.as_str(), "z_steric_quadrupole_3d") {
            slots.z_steric_quadrupole_3d = Some(a);
        } else {
        }
        proof {
            assert(slots_m(slots) =~~= spec_assign_slot(accpre, key@, a@));
        }
        j = skip_ws(s, j);
        if j < n && s.get_char(j) == ',' {
            j = skip_ws(s, j + 1);
        } else if j < n && s.get_char(j) == '}' {
            j = j + 1;
            done = true;
        } else {
            return Err(CacheError::MalformedDocument);
        }
        proof {
            if done {
                assert(spec_props_loop(s@, jm, accpre) == spec_finish_props(
                    slots_m(slots),
                    j as int,
                ));
            } else {
                assert(spec_props_loop(s@, jm, accpre) == spec_props_loop(
                    s@,
                    j as int,
                    slots_m(slots),
                ));
            }
        }
    }
    finish_props(slots, j, Ghost(i as int), Ghost(s@.len() as int))
}

/// Requires every mandatory schema field to have been seen.
fn finish_props(slots: Slots, j: usize, start: Ghost<int>, len: Ghost<int>) -> (r: Result<
    (RawProps, usize),
    CacheError,
>)
    requires
        start@ < j as int <= len@,
    ensures
        (match r {
            Ok(p) => Ok::<(RawPropsM, int), CacheError>((p.0@, p.1 as int)),
            Err(e) => Err(e),
        }) == spec_finish_props(slots_m(slots), j as int),
        match r {
            Ok(p) => p.1 == j && start@ < p.1 as int <= len@,
            Err(e) => e == CacheError::MalformedEntry,
        },
{
    let ghost pre = slots_m(slots);
    let Slots {
        atom_stereo_count,
        bond_stereo_count,
        canonical_smiles,
        charge,
        cid,
        complexity,
        conformer_count_3d,
        conformer_model_rmsd_3d,
        covalent_unit_count,
        defined_atom_stereo_count,
        defined_bond_stereo_count,
        effective_rotor_count_3d,
        exact_mass,
        feature_acceptor_count_3d,
        feature_anion_count_3d,
        feature_cation_count_3d,
        feature_count_3d,
        feature_donor_count_3d,
        feature_hydrophobe_count_3d,
        feature_ring_count_3d,
        fingerprint_2d,
        hbond_acceptor_count,
        hbond_donor_count,
        heavy_atom_count,
        inchi,
        inchi_key,
        isomeric_smiles,
        isotope_atom_count,
        iupac_name,
        molecular_formula,
        molecular_weight,
        monoisotopic_mass,
        rotatable_bond_count,
        title,
        tpsa,
        undefined_atom_stereo_count,
        undefined_bond_stereo_count,
        volume_3d,
        x_steric_quadrupole_3d,
        xlogp,
        y_steric_quadrupole_3d,
        z_steric_quadrupole_3d,
    } = slots;
    let atom_stereo_count = match atom_stereo_count {
        Some(a) => a,
        None => {
            return Err(CacheError::MalformedEntry);
        },
    };
    let bond_stereo_count = match bond_stereo_count {
        Some(a) => a,
        None => {
            return Err(CacheError::MalformedEntry);
        },
    };
    let canonical_smiles = match canonical_smiles {
        Some(a) => a,
        None => {
            return Err(CacheError::MalformedEntry);
        },
    };
    let charge = match charge {
        Some(a) => a,
        None => {
            return Err(CacheError::MalformedEntry);
        },
    };
    let cid = match cid {
        Some(a) => a,
        None => {
            return Err(CacheError::MalformedEntry);
        },
    };
    let complexity = match complexity {
        Some(a) => a,
        None => {
            return Err(CacheError::MalformedEntry);
        },
    };
    let conformer_count_3d = match conformer_count_3d {
        Some(a) => a,
        None => {
            return Err(CacheError::MalformedEntry);
        },
    };
    let conformer_model_rmsd_3d = match conformer_model_rmsd_3d {
        Some(a) => a,
        None => {
            return Err(CacheError::MalformedEntry);
        },
    };
    let covalent_unit_count = match covalent_unit_count {
        Some(a) => a,
        None => {
            return Err(CacheError::MalformedEntry);
        },
    };
    let defined_atom_stereo_count = match defined_atom_stereo_count {
        Some(a) => a,
        None => {
            return Err(CacheError::MalformedEntry);
        },
    };
    let defined_bond_stereo_count = match defined_bond_stereo_count {
        Some(a) => a,
        None => {
            return Err(CacheError::MalformedEntry);
        },
    };
    let effective_rotor_count_3d = match effective_rotor_count_3d {
        Some(a) => a,
        None => {
            return Err(CacheError::MalformedEntry);
        },
    };
    let exact_mass = match exact_mass {
        Some(a) => a,
        None => {
            return Err(CacheError::MalformedEntry);
        },
    };
    let feature_acceptor_count_3d = match feature_acceptor_count_3d {
        Some(a) => a,
        None => {
            return Err(CacheError::MalformedEntry);
        },
    };
    let feature_anion_count_3d = match feature_anion_count_3d {
        Some(a) => a,
        None => {
            return Err(CacheError::MalformedEntry);
        },
    };
    let feature_cation_count_3d = match feature_cation_count_3d {
        Some(a) => a,
        None => {
            return Err(CacheError::MalformedEntry);
        },
    };
    let feature_count_3d = match feature_count_3d {
        Some(a) => a,
        None => {
            return Err(CacheError::MalformedEntry);
        },
    };
    let feature_donor_count_3d = match feature_donor_count_3d {
        Some(a) => a,
        None => {
            return Err(CacheError::MalformedEntry);
        },
    };
    let feature_hydrophobe_count_3d = match feature_hydrophobe_count_3d {
        Some(a) => a,
        None => {
            return Err(CacheError::MalformedEntry);
        },
    };
    let feature_ring_count_3d = match feature_ring_count_3d {
        Some(a) => a,
        None => {
            return Err(CacheError::MalformedEntry);
        },
    };
    let fingerprint_2d = match fingerprint_2d {
        Some(a) => a,
        None => {
            return Err(CacheError::MalformedEntry);
        },
    };
    let hbond_acceptor_count = match hbond_acceptor_count {
        Some(a) => a,
        None => {
            return Err(CacheError::MalformedEntry);
        },
    };
    let hbond_donor_count = match hbond_donor_count {
        Some(a) => a,
        None => {
            return Err(CacheError::MalformedEntry);
        },
    };
    let heavy_atom_count = match heavy_atom_count {
        Some(a) => a,
        None => {
            return Err(CacheError::MalformedEntry);
        },
    };
    let inchi = match inchi {
        Some(a) => a,
        None => {
            return Err(CacheError::MalformedEntry);
        },
    };
    let inchi_key = match inchi_key {
        Some(a) => a,
        None => {
            return Err(CacheError::MalformedEntry);
        },
    };
    let isomeric_smiles = match isomeric_smiles {
        Some(a) => a,
        None => {
            return Err(CacheError::MalformedEntry);
        },
    };
    let isotope_atom_count = match isotope_atom_count {
        Some(a) => a,
        None => {
            return Err(CacheError::MalformedEntry);
        },
    };
    let iupac_name = match iupac_name {
        Some(a) => a,
        None => {
            return Err(CacheError::MalformedEntry);
        },
    };
    let molecular_formula = match molecular_formula {
        Some(a) => a,
        None => {
            return Err(CacheError::MalformedEntry);
        },
    };
    let molecular_weight = match molecular_weight {
        Some(a) => a,
        None => {
            return Err(CacheError::MalformedEntry);
        },
    };
    let monoisotopic_mass = match monoisotopic_mass {
        Some(a) => a,
        None => {
            return Err(CacheError::MalformedEntry);
        },
    };
    let rotatable_bond_count = match rotatable_bond_count {
        Some(a) => a,
        None => {
            return Err(CacheError::MalformedEntry);
        },
    };
    let title = match title {
        Some(a) => a,
        None => {
            return Err(CacheError::MalformedEntry);
        },
    };
    let tpsa = match tpsa {
        Some(a) => a,
        None => {
            return Err(CacheError::MalformedEntry);
        },
    };
    let undefined_atom_stereo_count = match undefined_atom_stereo_count {
        Some(a) => a,
        None => {
            return Err(CacheError::MalformedEntry);
        },
    };
    let undefined_bond_stereo_count = match undefined_bond_stereo_count {
        Some(a) => a,
        None => {
            return Err(CacheError::MalformedEntry);
        },
    };
    let volume_3d = match volume_3d {
        Some(a) => a,
        None => {
            return Err(CacheError::MalformedEntry);
        },
    };
    let x_steric_quadrupole_3d = match x_steric_quadrupole_3d {
        Some(a) => a,
        None => {
            return Err(CacheError::MalformedEntry);
        },
    };
    let xlogp = match xlogp {
        Some(a) => a,
        None => {
            return Err(CacheError::MalformedEntry);
        },
    };
    let y_steric_quadrupole_3d = match y_steric_quadrupole_3d {
        Some(a) => a,
        None => {
            return Err(CacheError::MalformedEntry);
        },
    };
    let z_steric_quadrupole_3d = match z_steric_quadrupole_3d {
        Some(a) => a,
        None => {
            return Err(CacheError::MalformedEntry);
        },
    };
    let props = RawProps {
        atom_stereo_count,
        bond_stereo_count,
        canonical_smiles,
        charge,
        cid,
        complexity,
        conformer_count_3d,
        conformer_model_rmsd_3d,
        covalent_unit_count,
        defined_atom_stereo_count,
        defined_bond_stereo_count,
        effective_rotor_count_3d,
        exact_mass,
        feature_acceptor_count_3d,
        feature_anion_count_3d,
        feature_cation_count_3d,
        feature_count_3d,
        feature_donor_count_3d,
        feature_hydrophobe_count_3d,
        feature_ring_count_3d,
        fingerprint_2d,
        hbond_acceptor_count,
        hbond_donor_count,
        heavy_atom_count,
        inchi,
        inchi_key,
        isomeric_smiles,
        isotope_atom_count,
        iupac_name,
        molecular_formula,
        molecular_weight,
        monoisotopic_mass,
        rotatable_bond_count,
        title,
        tpsa,
        undefined_atom_stereo_count,
        undefined_bond_stereo_count,
        volume_3d,
        x_steric_quadrupole_3d,
        xlogp,
        y_steric_quadrupole_3d,
        z_steric_quadrupole_3d,
    };
    proof {
        assert(props@ =~~= spec_finish_props(pre, j as int).unwrap().0);
    }
    Ok((props, j))
}

/// The identifier pair and field row collected so far become one array
/// element once all three are present.
pub open spec fn spec_finish_entry(
    ns: Option<Seq<char>>,
    id: Option<Seq<char>>,
    pr: Option<RawPropsM>,
    j: int,
) -> Result<(EntryM, int), CacheError> {
    if ns is Some && id is Some && pr is Some {
        Ok((EntryM { ns: ns.unwrap(), id: id.unwrap(), props: pr.unwrap() }, j))
    } else {
        Err(CacheError::MalformedEntry)
    }
}

/// The members of one array element from the key at `j`, with the parts
/// seen so far.
pub open spec fn spec_entry_loop(
    s: Seq<char>,
    j: int,
    ns: Option<Seq<char>>,
    id: Option<Seq<char>>,
    pr: Option<RawPropsM>,
) -> Result<(EntryM, int), CacheError>
    decreases s.len() - j,
{
    if !(0 <= j <= s.len()) {
        Err(CacheError::MalformedDocument)
    } else {
        match spec_parse_string(s, j) {
            Err(e) => Err(e),
            Ok(kp) => {
                let j3 = spec_skip_ws(s, kp.1);
                if !(j3 < s.len() && s[j3] == ':') {
                    Err(CacheError::MalformedDocument)
                } else {
                    let j4 = spec_skip_ws(s, j3 + 1);
                    if kp.0 == "properties"@ {
                        if !(j4 < s.len() && s[j4] == '{') {
                            match spec_skip_value(s, j4) {
                                Ok(_) => Err(CacheError::MalformedEntry),
                                Err(e) => Err(e),
                            }
                        } else {
                            match spec_parse_props(s, j4) {
                                Err(e) => Err(e),
                                Ok(pp) => if j < pp.1 <= s.len() {
                                    let j6 = spec_skip_ws(s, pp.1);
                                    if j6 < s.len() && s[j6] == ',' {
                                        let j7 = spec_skip_ws(s, j6 + 1);
                                        if j < j7 <= s.len() {
                                            spec_entry_loop(s, j7, ns, id, Some(pp.0))
                                        } else {
                                            Err(CacheError::MalformedDocument)
                                        }
                                    } else if j6 < s.len() && s[j6] == '}' {
                                        spec_finish_entry(ns, id, Some(pp.0), j6 + 1)
                                    } else {
                                        Err(CacheError::MalformedDocument)
                                    }
                                } else {
                                    Err(CacheError::MalformedDocument)
                                },
                            }
                        }
                    } else if j4 < s.len() && (s[j4] == '{' || s[j4] == '[') {
                        match spec_skip_value(s, j4) {
                            Err(e) => Err(e),
                            Ok(j5) => if kp.0 == "namespace"@ || kp.0 == "identifier"@ {
                                Err(CacheError::MalformedEntry)
                            } else {
                                if j < j5 <= s.len() {
                                    let j6 = spec_skip_ws(s, j5);
                                    if j6 < s.len() && s[j6] == ',' {
                                        let j7 = spec_skip_ws(s, j6 + 1);
                                        if j < j7 <= s.len() {
                                            spec_entry_loop(s, j7, ns, id, pr)
                                        } else {
                                            Err(CacheError::MalformedDocument)
                                        }
                                    } else if j6 < s.len() && s[j6] == '}' {
                                        spec_finish_entry(ns, id, pr, j6 + 1)
                                    } else {
                                        Err(CacheError::MalformedDocument)
                                    }
                                } else {
                                    Err(CacheError::MalformedDocument)
                                }
                            },
                        }
                    } else {
                        match spec_parse_atom(s, j4) {
                            Err(e) => Err(e),
                            Ok(ap) => if kp.0 == "namespace"@ {
                                match ap.0 {
                                    AtomM::Text(txt) => if j < ap.1 <= s.len() {
                                        let j6 = spec_skip_ws(s, ap.1);
                                        if j6 < s.len() && s[j6] == ',' {
                                            let j7 = spec_skip_ws(s, j6 + 1);
                                            if j < j7 <= s.len() {
                                                spec_entry_loop(s, j7, Some(txt), id, pr)
                                            } else {
                                                Err(CacheError::MalformedDocument)
                                            }
                                        } else if j6 < s.len() && s[j6] == '}' {
                                            spec_finish_entry(Some(txt), id, pr, j6 + 1)
                                        } else {
                                            Err(CacheError::MalformedDocument)
                                        }
                                    } else {
                                        Err(CacheError::MalformedDocument)
                                    },
                                    _ => Err(CacheError::MalformedEntry),
                                }
                            } else if kp.0 == "identifier"@ {
                                match ap.0 {
                                    AtomM::Text(txt) => if j < ap.1 <= s.len() {
                                        let j6 = spec_skip_ws(s, ap.1);
                                        if j6 < s.len() && s[j6] == ',' {
                                            let j7 = spec_skip_ws(s, j6 + 1);
                                            if j < j7 <= s.len() {
                                                spec_entry_loop(s, j7, ns, Some(txt), pr)
                                            } else {
                                                Err(CacheError::MalformedDocument)
                                            }
                                        } else if j6 < s.len() && s[j6] == '}' {
                                            spec_finish_entry(ns, Some(txt), pr, j6 + 1)
                                        } else {
                                            Err(CacheError::MalformedDocument)
                                        }
                                    } else {
                                        Err(CacheError::MalformedDocument)
                                    },
                                    _ => Err(CacheError::MalformedEntry),
                                }
                            } else {
                                if j < ap.1 <= s.len() {
                                    let j6 = spec_skip_ws(s, ap.1);
                                    if j6 < s.len() && s[j6] == ',' {
                                        let j7 = spec_skip_ws(s, j6 + 1);
                                        if j < j7 <= s.len() {
                                            spec_entry_loop(s, j7, ns, id, pr)
                                        } else {
                                            Err(CacheError::MalformedDocument)
                                        }
                                    } else if j6 < s.len() && s[j6] == '}' {
                                        spec_finish_entry(ns, id, pr, j6 + 1)
                                    } else {
                                        Err(CacheError::MalformedDocument)
                                    }
                                } else {
                                    Err(CacheError::MalformedDocument)
                                }
                            },
                        }
                    }
                }
            },
        }
    }
}

/// One element of the `cache` array at `i`: its value and its end.
pub open spec fn spec_parse_entry(s: Seq<char>, i: int) -> Result<(EntryM, int), CacheError> {
    if !(0 <= i < s.len() && s[i] == '{') {
        match spec_skip_value(s, i) {
            Ok(_) => Err(CacheError::MalformedEntry),
            Err(e) => Err(e),
        }
    } else {
        let j = spec_skip_ws(s, i + 1);
        if j < s.len() && s[j] == '}' {
            spec_finish_entry(None, None, None, j + 1)
        } else if i < j <= s.len() {
            spec_entry_loop(s, j, None, None, None)
        } else {
            Err(CacheError::MalformedDocument)
        }
    }
}

/// An optional field row's mathematical value.
pub open spec fn view_opt_props(o: Option<RawProps>) -> Option<RawPropsM> {
    match o {
        Some(p) => Some(p@),
        None => None,
    }
}

/// Reads one element of the `cache` array: it must be an object holding a
/// string `namespace`, a string `identifier`, and a `properties` object.
fn parse_entry(s: &str, i: usize) -> (r: Result<(JsonEntry, usize), CacheError>)
    requires
        i <= s@.len(),
    ensures
        (match r {
            Ok(p) => Ok::<(EntryM, int), CacheError>((p.0@, p.1 as int)),
            Err(e) => Err(e),
        }) == spec_parse_entry(s@, i as int),
        match r {
            Ok(p) => i < p.1 <= s@.len(),
            Err(e) => e == CacheError::MalformedDocument || e == CacheError::MalformedEntry,
        },
{
    let n = s.unicode_len();
    if !(i < n && s.get_char(i) == '{') {
        // any other well-formed value here is a non-object element
        return match skip_value(s, i) {
            Ok(_) => Err(CacheError::MalformedEntry),
            Err(e) => Err(e),
        };
    }
    let mut namespace: Option<String> = None;
    let mut identifier: Option<String> = None;
    let mut props: Option<RawProps> = None;
    let mut j = skip_ws(s, i + 1);
    let mut done = false;
    if j < n && s.get_char(j) == '}' {
        j = j + 1;
        done = true;
    }
    while !done
        invariant
            i < j <= n,
            n == s@.len(),
            0 <= i < s@.len() && s@[i as int] == '{',
            !done ==> spec_parse_entry(s@, i as int) == spec_entry_loop(
                s@,
                j as int,
                crate::props::view_opt_string(namespace),
                crate::props::view_opt_string(identifier),
                view_opt_props(props),
            ),
            done ==> spec_parse_entry(s@, i as int) == spec_finish_entry(
                crate::props::view_opt_string(namespace),
                crate::props::view_opt_string(identifier),
                view_opt_props(props),
                j as int,
            ),
        decreases n - j, if done { 0int } else { 1int },
    {
        let ghost jm = j as int;
        let ghost nspre = crate::props::view_opt_string(namespace);
        let ghost idpre = crate::props::view_opt_string(identifier);
        let ghost prpre = view_opt_props(props);
        let (key, j2) = match parse_string(s, j) {
            Ok(p) => p,
            Err(e) => {
                return Err(e);
            },
        };
        j = skip_ws(s, j2);
        if !(j < n && s.get_char(j) == ':') {
            return Err(CacheError::MalformedDocument);
        }
        j = skip_ws(s, j + 1);
        if str_eq(key.as_str(), "properties") {
            if !(j < n && s.get_char(j) == '{') {
                return match skip_value(s, j) {
                    Ok(_) => Err(CacheError::MalformedEntry),
                    Err(e) => Err(e),
                };
            }
            let (rp, j3) = match parse_props(s, j) {
                Ok(p) => p,
                Err(e) => {
                    return Err(e);
                },
            };
            props = Some(rp);
            j = j3;
        } else if j < n && (s.get_char(j) == '{' || s.get_char(j) == '[') {
            let j3 = match skip_value(s, j) {
                Ok(v) => v,
                Err(e) => {
                    return Err(e);
                },
            };
            if str_eq(key.as_str(), "namespace") || str_eq(key.as_str(), "identifier") {
                // a structured value where a string is demanded
                return Err(CacheError::MalformedEntry);
            }
            j = j3;
        } else {
            let (a, j3) = match parse_atom(s, j) {
                Ok(p) => p,
                Err(e) => {
                    return Err(e);
                },
            };
            j = j3;
            if str_eq(key.as_str(), "namespace") {
                match a {
                    Atom::Text(txt) => {
                        namespace = Some(txt);
                    },
                    _ => {
                        return Err(CacheError::MalformedEntry);
                    },
                }
            } else if str_eq(key.as_str(), "identifier") {
                match a {
                    Atom::Text(txt) => {
                        identifier = Some(txt);
                    },
                    _ => {
                        return Err(CacheError::MalformedEntry);
                    },
                }
            } else {
            }
        }
        j = skip_ws(s, j);
        if j < n && s.get_char(j) == ',' {
            j = skip_ws(s, j + 1);
        } else if j < n && s.get_char(j) == '}' {
            j = j + 1;
            done = true;
        } else {
            return Err(CacheError::MalformedDocument);
        }
        proof {
            if done {
                assert(spec_entry_loop(s@, jm, nspre, idpre, prpre) == spec_finish_entry(
                    crate::props::view_opt_string(namespace),
                    crate::props::view_opt_string(identifier),
                    view_opt_props(props),
                    j as int,
                ));
            } else {
                assert(spec_entry_loop(s@, jm, nspre, idpre, prpre) == spec_entry_loop(
                    s@,
                    j as int,
                    crate::props::view_opt_string(namespace),
                    crate::props::view_opt_string(identifier),
                    view_opt_props(props),
                ));
            }
        }
    }
    let ghost vns = crate::props::view_opt_string(namespace);
    let ghost vid = crate::props::view_opt_string(identifier);
    let ghost vpr = view_opt_props(props);
    let namespace = match namespace {
        Some(v) => v,
        None => {
            return Err(CacheError::MalformedEntry);
        },
    };
    let identifier = match identifier {
        Some(v) => v,
        None => {
            return Err(CacheError::MalformedEntry);
        },
    };
    let props = match props {
        Some(v) => v,
        None => {
            return Err(CacheError::MalformedEntry);
        },
    };
    let entry = JsonEntry { namespace, identifier, props };
    proof {
        assert(entry@ =~~= spec_finish_entry(vns, vid, vpr, j as int).unwrap().0);
    }
    Ok((entry, j))
}

/// Text that does not open a root object: its first non-whitespace
/// character, if any, is not a brace.
pub open spec fn no_root_object(s: Seq<char>) -> bool {
    !({
        let j = spec_skip_ws(s, 0);
        j < s.len() && s[j] == '{'
    })
}

/// Text that is exactly an empty root object, around any whitespace.
pub open spec fn empty_root_object(s: Seq<char>) -> bool {
    !no_root_object(s) && {
        let j = spec_skip_ws(s, 0);
        let j1 = spec_skip_ws(s, j + 1);
        j1 < s.len() && s[j1] == '}' && spec_skip_ws(s, j1 + 1) == s.len()
    }
}

/// What stands after the root object: only whitespace may remain, and the
/// `cache` array must have been seen.
pub open spec fn spec_doc_tail(s: Seq<char>, j: int, acc: Option<Seq<EntryM>>) -> Result<
    Seq<EntryM>,
    CacheError,
> {
    let j2 = spec_skip_ws(s, j);
    if j2 != s.len() {
        Err(CacheError::MalformedDocument)
    } else {
        match acc {
            Some(es) => Ok(es),
            None => Err(CacheError::MissingField),
        }
    }
}

/// The elements of the `cache` array from the one at `j`, with `acc` the
/// elements read so far: all elements and the position after the bracket.
pub open spec fn spec_entries_loop(s: Seq<char>, j: int, acc: Seq<EntryM>) -> Result<
    (Seq<EntryM>, int),
    CacheError,
>
    decreases s.len() - j,
{
    if !(0 <= j <= s.len()) {
        Err(CacheError::MalformedDocument)
    } else {
        match spec_parse_entry(s, j) {
            Err(e) => Err(e),
            Ok(ep) => {
                let acc2 = acc.push(ep.0);
                if j < ep.1 <= s.len() {
                    let j6 = spec_skip_ws(s, ep.1);
                    if j6 < s.len() && s[j6] == ',' {
                        let j7 = spec_skip_ws(s, j6 + 1);
                        if j < j7 <= s.len() {
                            spec_entries_loop(s, j7, acc2)
                        } else {
                            Err(CacheError::MalformedDocument)
                        }
                    } else if j6 < s.len() && s[j6] == ']' {
                        Ok((acc2, j6 + 1))
                    } else {
                        Err(CacheError::MalformedDocument)
                    }
                } else {
                    Err(CacheError::MalformedDocument)
                }
            },
        }
    }
}

/// The members of the root object from the key at `j`: the `cache` array
/// if one was seen, and the position after the closing brace.
pub open spec fn spec_doc_loop(s: Seq<char>, j: int, acc: Option<Seq<EntryM>>) -> Result<
    (Option<Seq<EntryM>>, int),
    CacheError,
>
    decreases s.len() - j, 1int,
{
    if !(0 <= j <= s.len()) {
        Err(CacheError::MalformedDocument)
    } else {
        match spec_parse_string(s, j) {
            Err(e) => Err(e),
            Ok(kp) => {
                let j3 = spec_skip_ws(s, kp.1);
                if !(j3 < s.len() && s[j3] == ':') {
                    Err(CacheError::MalformedDocument)
                } else {
                    let j4 = spec_skip_ws(s, j3 + 1);
                    if kp.0 == "cache"@ {
                        if !(j4 < s.len() && s[j4] == '[') {
                            match spec_skip_value(s, j4) {
                                Ok(_) => Err(CacheError::MissingField),
                                Err(e) => Err(e),
                            }
                        } else {
                            let j5 = spec_skip_ws(s, j4 + 1);
                            if j5 < s.len() && s[j5] == ']' {
                                if j < j5 + 1 {
                                    spec_doc_sep(s, j, j5 + 1, Some(Seq::<EntryM>::empty()))
                                } else {
                                    Err(CacheError::MalformedDocument)
                                }
                            } else if j4 < j5 <= s.len() {
                                match spec_entries_loop(s, j5, Seq::<EntryM>::empty()) {
                                    Err(e) => Err(e),
                                    Ok(ep) => if j < ep.1 <= s.len() {
                                        spec_doc_sep(s, j, ep.1, Some(ep.0))
                                    } else {
                                        Err(CacheError::MalformedDocument)
                                    },
                                }
                            } else {
                                Err(CacheError::MalformedDocument)
                            }
                        }
                    } else {
                        match spec_skip_value(s, j4) {
                            Err(e) => Err(e),
                            Ok(j5) => if j < j5 <= s.len() {
                                spec_doc_sep(s, j, j5, acc)
                            } else {
                                Err(CacheError::MalformedDocument)
                            },
                        }
                    }
                }
            },
        }
    }
}

/// After one root member: a comma continues with the next member, a brace
/// closes the root object.
pub open spec fn spec_doc_sep(s: Seq<char>, j: int, pos: int, acc: Option<Seq<EntryM>>) -> Result<
    (Option<Seq<EntryM>>, int),
    CacheError,
>
    decreases s.len() - pos, 0int,
{
    if !(j < pos <= s.len()) {
        Err(CacheError::MalformedDocument)
    } else {
        let j6 = spec_skip_ws(s, pos);
        if j6 < s.len() && s[j6] == ',' {
            let j7 = spec_skip_ws(s, j6 + 1);
            if pos < j7 <= s.len() {
                spec_doc_loop(s, j7, acc)
            } else {
                Err(CacheError::MalformedDocument)
            }
        } else if j6 < s.len() && s[j6] == '}' {
            Ok((acc, j6 + 1))
        } else {
            Err(CacheError::MalformedDocument)
        }
    }
}

/// A whole persisted document: the `cache` entries it carries.
pub open spec fn spec_parse_document(s: Seq<char>) -> Result<Seq<EntryM>, CacheError> {
    let j = spec_skip_ws(s, 0);
    if !(j < s.len() && s[j] == '{') {
        Err(CacheError::MalformedDocument)
    } else {
        let j1 = spec_skip_ws(s, j + 1);
        if j1 < s.len() && s[j1] == '}' {
            spec_doc_tail(s, j1 + 1, None)
        } else if j < j1 <= s.len() {
            match spec_doc_loop(s, j1, None) {
                Err(e) => Err(e),
                Ok(dp) => spec_doc_tail(s, dp.1, dp.0),
            }
        } else {
            Err(CacheError::MalformedDocument)
        }
    }
}

/// The entries collected so far, as mathematical values.
pub open spec fn view_opt_entries(o: Option<Vec<JsonEntry>>) -> Option<Seq<EntryM>> {
    match o {
        Some(v) => Some(v@.map_values(|e: JsonEntry| e@)),
        None => None,
    }
}

/// Reads a whole persisted document: the root object must be valid JSON
/// within the supported shape and must carry the `cache` array.
#[verifier::rlimit(80)]
#[verifier::loop_isolation(false)]
pub fn parse_document(s: &str) -> (r: Result<JsonDoc, CacheError>)
    ensures
        (match r {
            Ok(d) => Ok::<Seq<EntryM>, CacheError>(d@),
            Err(e) => Err(e),
        }) == spec_parse_document(s@),
        match r {
            Ok(_) => true,
            Err(e) => e == CacheError::MalformedDocument || e == CacheError::MissingField
                || e == CacheError::MalformedEntry,
        },
        no_root_object(s@) ==> r == Err::<JsonDoc, CacheError>(CacheError::MalformedDocument),
        empty_root_object(s@) ==> r == Err::<JsonDoc, CacheError>(CacheError::MissingField),
{
    let n = s.unicode_len();
    let mut j = skip_ws(s, 0);
    if !(j < n && s.get_char(j) == '{') {
        return Err(CacheError::MalformedDocument);
    }
    let mut entries: Option<Vec<JsonEntry>> = None;
    j = skip_ws(s, j + 1);
    let mut done = false;
    if j < n && s.get_char(j) == '}' {
        j = j + 1;
        done = true;
    }
    while !done
        invariant
            j <= n,
            n == s@.len(),
            !done ==> spec_parse_document(s@) == (match spec_doc_loop(
                s@,
                j as int,
                view_opt_entries(entries),
            ) {
                Err(e) => Err::<Seq<EntryM>, CacheError>(e),
                Ok(dp) => spec_doc_tail(s@, dp.1, dp.0),
            }),
            done ==> spec_parse_document(s@) == spec_doc_tail(
                s@,
                j as int,
                view_opt_entries(entries),
            ),
        decreases n - j, if done { 0int } else { 1int },
    {
        let ghost jm = j as int;
        let ghost accpre = view_opt_entries(entries);
        let (key, j2) = match parse_string(s, j) {
            Ok(p) => p,
            Err(e) => {
                return Err(e);
            },
        };
        j = skip_ws(s, j2);
        if !(j < n && s.get_char(j) == ':') {
            return Err(CacheError::MalformedDocument);
        }
        j = skip_ws(s, j + 1);
        if str_eq(key.as_str(), "cache") {
            if !(j < n && s.get_char(j) == '[') {
                // the root object carries no cache array
                return match skip_value(s, j) {
                    Ok(_) => Err(CacheError::MissingField),
                    Err(e) => Err(e),
                };
            }
            j = skip_ws(s, j + 1);
            let mut es: Vec<JsonEntry> = Vec::new();
            if j < n && s.get_char(j) == ']' {
                proof {
                    assert(es@.map_values(|e: JsonEntry| e@) =~= Seq::<EntryM>::empty());
                }
                j = j + 1;
            } else {
                let ghost j50 = j as int;
                let mut arr_done = false;
                proof {
                    assert(es@.map_values(|e: JsonEntry| e@) =~= Seq::<EntryM>::empty());
                    assert(spec_doc_loop(s@, jm, accpre) == (match spec_entries_loop(
                        s@,
                        j50,
                        Seq::<EntryM>::empty(),
                    ) {
                        Err(e) => Err::<(Option<Seq<EntryM>>, int), CacheError>(e),
                        Ok(ep) => if jm < ep.1 <= s@.len() {
                            spec_doc_sep(s@, jm, ep.1, Some(ep.0))
                        } else {
                            Err(CacheError::MalformedDocument)
                        },
                    }));
                }
                while !arr_done
                    invariant
                        j50 <= j <= n,
                        n == s@.len(),
                        !arr_done ==> spec_entries_loop(s@, j50, Seq::<EntryM>::empty())
                            == spec_entries_loop(
                            s@,
                            j as int,
                            es@.map_values(|e: JsonEntry| e@),
                        ),
                        arr_done ==> spec_entries_loop(s@, j50, Seq::<EntryM>::empty())
                            == Ok::<(Seq<EntryM>, int), CacheError>(
                            (es@.map_values(|e: JsonEntry| e@), j as int),
                        ),
                    decreases n - j, if arr_done { 0int } else { 1int },
                {
                    let ghost ja = j as int;
                    let ghost espre = es@.map_values(|e: JsonEntry| e@);
                    let (e, j3) = match parse_entry(s, j) {
                        Ok(p) => p,
                        Err(e) => {
                            proof {
                                assert(spec_entries_loop(s@, ja, espre) == Err::<
                                    (Seq<EntryM>, int),
                                    CacheError,
                                >(e));
                            }
                            return Err(e);
                        },
                    };
                    es.push(e);
                    proof {
                        assert(es@.map_values(|e: JsonEntry| e@) =~= espre.push(e@));
                    }
                    j = skip_ws(s, j3);
                    if j < n && s.get_char(j) == ',' {
                        j = skip_ws(s, j + 1);
                    } else if j < n && s.get_char(j) == ']' {
                        j = j + 1;
                        arr_done = true;
                    } else {
                        proof {
                            assert(spec_entries_loop(s@, ja, espre) == Err::<
                                (Seq<EntryM>, int),
                                CacheError,
                            >(CacheError::MalformedDocument));
                        }
                        return Err(CacheError::MalformedDocument);
                    }
                    proof {
                        if arr_done {
                            assert(spec_entries_loop(s@, ja, espre) == Ok::<
                                (Seq<EntryM>, int),
                                CacheError,
                            >((es@.map_values(|e: JsonEntry| e@), j as int)));
                        } else {
                            assert(spec_entries_loop(s@, ja, espre) == spec_entries_loop(
                                s@,
                                j as int,
                                es@.map_values(|e: JsonEntry| e@),
                            ));
                        }
                    }
                }
            }
            entries = Some(es);
        } else {
            let j3 = match skip_value(s, j) {
                Ok(v) => v,
                Err(e) => {
                    return Err(e);
                },
            };
            j = j3;
        }
        let ghost jv = j as int;
        let ghost accmid = view_opt_entries(entries);
        proof {
            assert(spec_doc_loop(s@, jm, accpre) == spec_doc_sep(s@, jm, jv, accmid));
        }
        j = skip_ws(s, j);
        if j < n && s.get_char(j) == ',' {
            j = skip_ws(s, j + 1);
        } else if j < n && s.get_char(j) == '}' {
            j = j + 1;
            done = true;
        } else {
            return Err(CacheError::MalformedDocument);
        }
        proof {
            if done {
                assert(spec_doc_sep(s@, jm, jv, accmid) == Ok::<
                    (Option<Seq<EntryM>>, int),
                    CacheError,
                >((view_opt_entries(entries), j as int)));
            } else {
                assert(spec_doc_sep(s@, jm, jv, accmid) == spec_doc_loop(
                    s@,
                    j as int,
                    view_opt_entries(entries),
                ));
            }
        }
    }
    j = skip_ws(s, j);
    if j != n {
        return Err(CacheError::MalformedDocument);
    }
    match entries {
        Some(es) => {
            let d = JsonDoc { entries: es };
            proof {
                assert(Ok::<Seq<EntryM>, CacheError>(d@) == spec_parse_document(s@));
            }
            Ok(d)
        },
        None => Err(CacheError::MissingField),
    }
}

} // verus!
