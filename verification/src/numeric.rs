//! Recognizers for the textual number forms a setting value may take:
//! 64-bit signed integer literals and the floating-point literal grammar
//! (optional sign; `inf`, `infinity` or `nan` ignoring case; or digits with
//! at most one dot, optionally followed by `e`/`E`, an optional sign and
//! digits). A value is valid for an Integer or Float setting exactly when
//! these accept it.

use vstd::prelude::*;
use vstd::string::*;

verus! {

pub open spec fn is_digit_char(c: char) -> bool {
    '0' <= c && c <= '9'
}

pub open spec fn digit_value(c: char) -> int {
    c as int - '0' as int
}

pub open spec fn all_digits(s: Seq<char>) -> bool {
    forall|i: int| 0 <= i < s.len() ==> is_digit_char(s[i])
}

/// The number denoted by a sequence of decimal digits.
pub open spec fn digits_value(s: Seq<char>) -> int
    decreases s.len(),
{
    if s.len() == 0 {
        0
    } else {
        digits_value(s.drop_last()) * 10 + digit_value(s.last())
    }
}

/// The sequence with one leading `+` or `-` removed, if present.
pub open spec fn sign_stripped(s: Seq<char>) -> Seq<char> {
    if s.len() > 0 && (s[0] == '+' || s[0] == '-') {
        s.subrange(1, s.len() as int)
    } else {
        s
    }
}

pub open spec fn has_minus_sign(s: Seq<char>) -> bool {
    s.len() > 0 && s[0] == '-'
}

/// A string that parses as a 64-bit signed integer: an optional sign,
/// one or more digits, and a value within the type's range.
pub open spec fn is_i64_literal(s: Seq<char>) -> bool {
    let body = sign_stripped(s);
    body.len() > 0 && all_digits(body) && (if has_minus_sign(s) {
        digits_value(body) <= 0x8000000000000000
    } else {
        digits_value(body) <= 0x7fffffffffffffff
    })
}

pub proof fn lemma_digits_value_nonneg(s: Seq<char>)
    requires
        all_digits(s),
    ensures
        digits_value(s) >= 0,
    decreases s.len(),
{
    if s.len() > 0 {
        lemma_digits_value_nonneg(s.drop_last());
    }
}

/// Appending digits to a sequence whose value already exceeds a bound
/// keeps the value above that bound.
proof fn lemma_digits_value_grows(s: Seq<char>, c: char, bound: int)
    requires
        all_digits(s),
        is_digit_char(c),
        digits_value(s) > bound,
        bound >= 0,
    ensures
        digits_value(s.push(c)) > bound,
{
    lemma_digits_value_nonneg(s);
    assert(s.push(c).drop_last() =~= s);
    assert(digits_value(s.push(c)) == digits_value(s) * 10 + digit_value(c));
    assert(digits_value(s) * 10 >= digits_value(s)) by {
        lemma_digits_value_nonneg(s);
    }
}

/// Whether the string parses as a 64-bit signed integer.
pub fn is_valid_integer(s: &str) -> (r: bool)
    ensures
        r == is_i64_literal(s@),
{
    let n = s.unicode_len();
    if n == 0 {
        return false;
    }
    let c0 = s.get_char(0);
    let c0u = c0 as u32;
    let has_sign = c0u == 43 || c0u == 45;
    let neg = c0u == 45;
    let start: usize = if has_sign {
        1
    } else {
        0
    };
    proof {
        assert(('+' as u32) == 43 && ('-' as u32) == 45);
    }
    if start == n {
        assert(sign_stripped(s@).len() == 0);
        return false;
    }
    let ghost body = sign_stripped(s@);
    proof {
        assert(body.len() == n - start);
        assert(forall|k: int| 0 <= k < body.len() ==> body[k] == s@[k + start]);
    }
    let limit: u64 = if neg {
        9223372036854775808
    } else {
        9223372036854775807
    };
    let mut acc: u64 = 0;
    let mut over = false;
    let mut j: usize = start;
    while j < n
        invariant
            start <= j <= n,
            start <= 1,
            n == s@.len(),
            body == sign_stripped(s@),
            body.len() == n - start,
            forall|k: int| 0 <= k < body.len() ==> body[k] == s@[k + start],
            forall|k: int| 0 <= k < j - start ==> is_digit_char(body[k]),
            limit == (if has_minus_sign(s@) {
                9223372036854775808u64
            } else {
                9223372036854775807u64
            }),
            neg == has_minus_sign(s@),
            over <==> digits_value(body.subrange(0, j - start)) > limit,
            !over ==> acc == digits_value(body.subrange(0, j - start)),
            acc <= limit,
        decreases n - j,
    {
        let c = s.get_char(j);
        let cu = c as u32;
        let ghost prefix = body.subrange(0, j - start);
        proof {
            assert(body.subrange(0, j + 1 - start).drop_last() =~= prefix);
            assert(body.subrange(0, j + 1 - start).last() == body[j - start]);
            assert(body[j - start] == s@[j as int]);
        }
        if cu < 48 || cu > 57 {
            assert(!is_digit_char(body[j - start]));
            return false;
        }
        assert(is_digit_char(body[j - start]));
        let d: u64 = (cu - 48) as u64;
        proof {
            assert(d == digit_value(body[j - start]));
        }
        if !over {
            if acc > 922337203685477580 {
                over = true;
                proof {
                    assert(digits_value(body.subrange(0, j + 1 - start)) == digits_value(prefix)
                        * 10 + d);
                }
            } else {
                let t: u64 = acc * 10;
                if t > limit - d {
                    over = true;
                } else {
                    acc = t + d;
                }
            }
        } else {
            proof {
                lemma_digits_value_grows(prefix, body[j - start], limit as int);
                assert(body.subrange(0, j + 1 - start) =~= prefix.push(body[j - start]));
            }
        }
        j += 1;
    }
    proof {
        assert(body.subrange(0, n - start) =~= body);
    }
    !over
}

/// Case-insensitive match of one character against a lowercase ASCII letter.
pub open spec fn lower_eq(c: char, l: char) -> bool {
    c == l || c as int + 32 == l as int
}

/// Case-insensitive match of a sequence against a lowercase ASCII pattern.
pub open spec fn matches_ci(s: Seq<char>, pat: Seq<char>) -> bool {
    s.len() == pat.len() && (forall|i: int| 0 <= i < s.len() ==> lower_eq(s[i], pat[i]))
}

/// The three special floating-point words, ignoring case.
pub open spec fn is_special_float(s: Seq<char>) -> bool {
    matches_ci(s, "inf"@) || matches_ci(s, "infinity"@) || matches_ci(s, "nan"@)
}

/// Digits with at most one dot and at least one digit.
pub open spec fn is_mantissa(m: Seq<char>) -> bool {
    (m.len() > 0 && all_digits(m)) || (exists|k: int|
        0 <= k < m.len() && m[k] == '.' && m.len() > 1 && all_digits(m.subrange(0, k))
            && all_digits(m.subrange(k + 1, m.len() as int)))
}

/// An optional sign followed by one or more digits.
pub open spec fn is_exponent_part(x: Seq<char>) -> bool {
    let b = sign_stripped(x);
    b.len() > 0 && all_digits(b)
}

pub open spec fn is_exp_marker(c: char) -> bool {
    c == 'e' || c == 'E'
}

/// A mantissa alone, or a mantissa and an exponent split by `e` or `E`.
pub open spec fn is_float_number(b: Seq<char>) -> bool {
    is_mantissa(b) || (exists|i: int|
        0 <= i < b.len() && is_exp_marker(b[i]) && is_mantissa(b.subrange(0, i))
            && is_exponent_part(b.subrange(i + 1, b.len() as int)))
}

/// A string that parses as a 64-bit floating-point number.
pub open spec fn is_f64_literal(s: Seq<char>) -> bool {
    let b = sign_stripped(s);
    is_special_float(b) || is_float_number(b)
}

/// A sequence holding a character that is neither a digit nor a dot is no
/// mantissa.
proof fn lemma_not_mantissa(m: Seq<char>, p: int)
    requires
        0 <= p < m.len(),
        !is_digit_char(m[p]),
        m[p] != '.',
    ensures
        !is_mantissa(m),
{
    assert(!all_digits(m));
    assert forall|k: int|
        !(0 <= k < m.len() && m[k] == '.' && m.len() > 1 && all_digits(m.subrange(0, k))
            && all_digits(m.subrange(k + 1, m.len() as int))) by {
        if 0 <= k < m.len() && m[k] == '.' {
            if p < k {
                assert(m.subrange(0, k)[p] == m[p]);
                assert(!all_digits(m.subrange(0, k)));
            } else if p > k {
                assert(m.subrange(k + 1, m.len() as int)[p - k - 1] == m[p]);
                assert(!all_digits(m.subrange(k + 1, m.len() as int)));
            }
        }
    }
}

/// Case-insensitive comparison of one character with a lowercase letter.
fn eq_ci(c: char, l: char) -> (r: bool)
    ensures
        r == lower_eq(c, l),
{
    let cu = c as u32;
    let lu = l as u32;
    cu == lu || cu + 32 == lu
}

/// The index of the first character at or after `lo` that is not a digit,
/// or `hi` when all of `s[lo..hi]` are digits.
fn scan_digits(s: &str, lo: usize, hi: usize) -> (i: usize)
    requires
        lo <= hi <= s@.len(),
    ensures
        lo <= i <= hi,
        forall|k: int| lo <= k < i ==> is_digit_char(s@[k]),
        i < hi ==> !is_digit_char(s@[i as int]),
{
    let mut i: usize = lo;
    while i < hi
        invariant
            lo <= i <= hi <= s@.len(),
            forall|k: int| lo <= k < i ==> is_digit_char(s@[k]),
        decreases hi - i,
    {
        let c = s.get_char(i);
        let cu = c as u32;
        if cu < 48 || cu > 57 {
            assert(!is_digit_char(s@[i as int]));
            return i;
        }
        assert(is_digit_char(s@[i as int]));
        i += 1;
    }
    i
}

/// Whether `s[start..]` matches the lowercase pattern, ignoring case.
fn matches_ci_from(s: &str, start: usize, pat: &str) -> (r: bool)
    requires
        start <= s@.len(),
    ensures
        r == matches_ci(s@.subrange(start as int, s@.len() as int), pat@),
{
    let n = s.unicode_len();
    let m = pat.unicode_len();
    if n - start != m {
        return false;
    }
    let ghost sub = s@.subrange(start as int, s@.len() as int);
    let mut i: usize = 0;
    while i < m
        invariant
            0 <= i <= m,
            m == pat@.len(),
            n == s@.len(),
            start + m == n,
            sub == s@.subrange(start as int, s@.len() as int),
            forall|k: int| 0 <= k < i ==> lower_eq(sub[k], pat@[k]),
        decreases m - i,
    {
        let c = s.get_char(start + i);
        let l = pat.get_char(i);
        if !eq_ci(c, l) {
            assert(!lower_eq(sub[i as int], pat@[i as int]));
            return false;
        }
        i += 1;
    }
    true
}

/// Whether `s[lo..hi]` is a mantissa: digits with at most one dot and at
/// least one digit.
fn check_mantissa(s: &str, lo: usize, hi: usize) -> (r: bool)
    requires
        lo <= hi <= s@.len(),
    ensures
        r == is_mantissa(s@.subrange(lo as int, hi as int)),
{
    let ghost m = s@.subrange(lo as int, hi as int);
    proof {
        assert(forall|k: int| 0 <= k < m.len() ==> m[k] == s@[k + lo]);
    }
    let i = scan_digits(s, lo, hi);
    if i == hi {
        // all digits
        return hi > lo;
    }
    // m[i - lo] is not a digit
    let c = s.get_char(i);
    let cu = c as u32;
    assert(!is_digit_char(m[i - lo]));
    if cu != 46 {
        proof {
            assert(('.' as u32) == 46);
            lemma_not_mantissa(m, i - lo);
        }
        return false;
    }
    assert(m[i - lo] == '.');
    // digits must follow to the end
    let dot = i;
    let j = scan_digits(s, dot + 1, hi);
    if j < hi {
        proof {
            let bad = j - lo;
            assert(m[bad] == s@[j as int]);
            assert(!is_digit_char(m[bad]));
            assert(!all_digits(m));
            assert forall|k: int|
                !(0 <= k < m.len() && m[k] == '.' && m.len() > 1 && all_digits(m.subrange(0, k))
                    && all_digits(m.subrange(k + 1, m.len() as int))) by {
                if 0 <= k < m.len() && m[k] == '.' {
                    if k == dot - lo {
                        assert(m.subrange(k + 1, m.len() as int)[bad - k - 1] == m[bad]);
                    } else if k < dot - lo {
                        assert(is_digit_char(m[k]));
                    } else {
                        // k > dot - lo: the range before k holds the dot
                        assert(m.subrange(0, k)[dot - lo] == m[dot - lo]);
                        assert(!all_digits(m.subrange(0, k)));
                    }
                }
            }
        }
        return false;
    }
    let ok = hi - lo > 1;
    proof {
        if ok {
            let k = dot - lo;
            assert forall|t: int| 0 <= t < k implies #[trigger] is_digit_char(
                m.subrange(0, k)[t],
            ) by {
                assert(m.subrange(0, k)[t] == s@[t + lo]);
            }
            assert forall|t: int| 0 <= t < m.len() - k - 1 implies #[trigger] is_digit_char(
                m.subrange(k + 1, m.len() as int)[t],
            ) by {
                assert(m.subrange(k + 1, m.len() as int)[t] == s@[t + dot + 1]);
            }
            assert(is_mantissa(m));
        } else {
            // the single character is the dot
            assert(m.len() == 1);
            assert(!all_digits(m));
        }
    }
    ok
}

/// Whether `s[lo..hi]` is an exponent: optional sign, then digits.
fn check_exponent(s: &str, lo: usize, hi: usize) -> (r: bool)
    requires
        lo <= hi <= s@.len(),
    ensures
        r == is_exponent_part(s@.subrange(lo as int, hi as int)),
{
    let ghost x = s@.subrange(lo as int, hi as int);
    proof {
        assert(forall|k: int| 0 <= k < x.len() ==> x[k] == s@[k + lo]);
        assert(('+' as u32) == 43 && ('-' as u32) == 45);
    }
    let mut i: usize = lo;
    if i < hi {
        let c = s.get_char(i);
        let cu = c as u32;
        if cu == 43 || cu == 45 {
            assert(x[0] == '+' || x[0] == '-');
            i += 1;
        } else {
            assert(x.len() > 0 && x[0] != '+' && x[0] != '-');
        }
    }
    let ghost b = sign_stripped(x);
    proof {
        assert(b.len() == hi - i);
        assert(forall|k: int| 0 <= k < b.len() ==> b[k] == s@[k + i]);
    }
    if i == hi {
        assert(b.len() == 0);
        return false;
    }
    let j = scan_digits(s, i, hi);
    if j < hi {
        assert(!is_digit_char(b[j - i]));
        return false;
    }
    proof {
        assert forall|k: int| 0 <= k < b.len() implies is_digit_char(b[k]) by {
            assert(b[k] == s@[k + i]);
        }
    }
    true
}

/// The index of the first `e` or `E` at or after `lo`, or `hi` when there
/// is none in `s[lo..hi]`.
fn find_exp_marker(s: &str, lo: usize, hi: usize) -> (i: usize)
    requires
        lo <= hi <= s@.len(),
    ensures
        lo <= i <= hi,
        forall|k: int| lo <= k < i ==> !is_exp_marker(s@[k]),
        i < hi ==> is_exp_marker(s@[i as int]),
{
    let mut i: usize = lo;
    proof {
        assert(('e' as u32) == 101 && ('E' as u32) == 69);
    }
    while i < hi
        invariant
            lo <= i <= hi <= s@.len(),
            forall|k: int| lo <= k < i ==> !is_exp_marker(s@[k]),
        decreases hi - i,
    {
        let c = s.get_char(i);
        let cu = c as u32;
        if cu == 101 || cu == 69 {
            assert(is_exp_marker(s@[i as int]));
            return i;
        }
        assert(!is_exp_marker(s@[i as int]));
        i += 1;
    }
    i
}

/// Whether the string parses as a 64-bit floating-point number.
pub fn is_valid_float(s: &str) -> (r: bool)
    ensures
        r == is_f64_literal(s@),
{
    let n = s.unicode_len();
    if n == 0 {
        proof {
            reveal_strlit("inf");
            reveal_strlit("infinity");
            reveal_strlit("nan");
            assert(sign_stripped(s@).len() == 0);
        }
        return false;
    }
    let c0 = s.get_char(0);
    let c0u = c0 as u32;
    proof {
        assert(('+' as u32) == 43 && ('-' as u32) == 45);
    }
    let has_sign = c0u == 43 || c0u == 45;
    let start: usize = if has_sign {
        1
    } else {
        0
    };
    let ghost b = sign_stripped(s@);
    proof {
        assert(b.len() == n - start);
        assert(forall|k: int| 0 <= k < b.len() ==> b[k] == s@[k + start]);
        assert(b =~= s@.subrange(start as int, n as int));
    }
    if matches_ci_from(s, start, "inf") || matches_ci_from(s, start, "infinity")
        || matches_ci_from(s, start, "nan") {
        return true;
    }
    assert(!is_special_float(b));
    // find the first exponent marker
    let e_at = find_exp_marker(s, start, n);
    if e_at == n {
        // no marker anywhere
        let r = check_mantissa(s, start, n);
        proof {
            assert forall|k: int|
                !(0 <= k < b.len() && is_exp_marker(b[k]) && is_mantissa(b.subrange(0, k))
                    && is_exponent_part(b.subrange(k + 1, b.len() as int))) by {
                if 0 <= k < b.len() {
                    assert(b[k] == s@[k + start]);
                    assert(!is_exp_marker(s@[k + start]));
                }
            }
            assert(s@.subrange(start as int, n as int) =~= b);
        }
        return r;
    }
    // marker at e_at, none before it
    let r1 = check_mantissa(s, start, e_at);
    let r2 = if r1 {
        check_exponent(s, e_at + 1, n)
    } else {
        false
    };
    proof {
        let ei = e_at - start;
        assert(is_exp_marker(b[ei]));
        assert(b.subrange(0, ei) =~= s@.subrange(start as int, e_at as int));
        assert(b.subrange(ei + 1, b.len() as int) =~= s@.subrange(e_at + 1, n as int));
        if r1 && r2 {
            assert(is_float_number(b));
        } else {
            // the mantissa or exponent at the first marker fails; no other
            // split can succeed, and the whole body is no plain mantissa
            lemma_not_mantissa(b, ei);
            assert forall|k: int|
                !(0 <= k < b.len() && is_exp_marker(b[k]) && is_mantissa(b.subrange(0, k))
                    && is_exponent_part(b.subrange(k + 1, b.len() as int))) by {
                if 0 <= k < b.len() && is_exp_marker(b[k]) {
                    if k < ei {
                        assert(b[k] == s@[k + start]);
                        assert(!is_exp_marker(s@[k + start]));
                    } else if k > ei {
                        // the mantissa before k holds the first marker
                        assert(b.subrange(0, k)[ei] == b[ei]);
                        assert(!is_digit_char(b[ei]) && b[ei] != '.') by {
                            assert(b[ei] == 'e' || b[ei] == 'E');
                        }
                        lemma_not_mantissa(b.subrange(0, k), ei);
                    }
                }
            }
        }
    }
    r1 && r2
}


/// The decimal digit characters, by value.
pub open spec fn digit_char(d: int) -> char {
    if d == 0 {
        '0'
    } else if d == 1 {
        '1'
    } else if d == 2 {
        '2'
    } else if d == 3 {
        '3'
    } else if d == 4 {
        '4'
    } else if d == 5 {
        '5'
    } else if d == 6 {
        '6'
    } else if d == 7 {
        '7'
    } else if d == 8 {
        '8'
    } else {
        '9'
    }
}

/// The decimal text of a number, most significant digit first.
pub open spec fn dec_digits(n: nat) -> Seq<char>
    decreases n,
{
    if n < 10 {
        seq![digit_char(n as int)]
    } else {
        dec_digits(n / 10) + seq![digit_char((n % 10) as int)]
    }
}

/// The one-character text of a decimal digit.
fn digit_str(d: u64) -> (r: &'static str)
    requires
        d < 10,
    ensures
        r@ == seq![digit_char(d as int)],
{
    proof {
        reveal_strlit("0");
        reveal_strlit("1");
        reveal_strlit("2");
        reveal_strlit("3");
        reveal_strlit("4");
        reveal_strlit("5");
        reveal_strlit("6");
        reveal_strlit("7");
        reveal_strlit("8");
        reveal_strlit("9");
    }
    if d == 0 {
        assert("0"@ =~= seq![digit_char(0)]);
        "0"
    } else if d == 1 {
        assert("1"@ =~= seq![digit_char(1)]);
        "1"
    } else if d == 2 {
        assert("2"@ =~= seq![digit_char(2)]);
        "2"
    } else if d == 3 {
        assert("3"@ =~= seq![digit_char(3)]);
        "3"
    } else if d == 4 {
        assert("4"@ =~= seq![digit_char(4)]);
        "4"
    } else if d == 5 {
        assert("5"@ =~= seq![digit_char(5)]);
        "5"
    } else if d == 6 {
        assert("6"@ =~= seq![digit_char(6)]);
        "6"
    } else if d == 7 {
        assert("7"@ =~= seq![digit_char(7)]);
        "7"
    } else if d == 8 {
        assert("8"@ =~= seq![digit_char(8)]);
        "8"
    } else {
        assert("9"@ =~= seq![digit_char(9)]);
        "9"
    }
}

/// The decimal text of a 64-bit number.
pub fn u64_to_string(n: u64) -> (r: String)
    ensures
        r@ == dec_digits(n as nat),
    decreases n,
{
    if n < 10 {
        digit_str(n).to_owned()
    } else {
        let mut s = u64_to_string(n / 10);
        s.append(digit_str(n % 10));
        proof {
            assert(s@ =~= dec_digits(n as nat));
        }
        s
    }
}

} // verus!
