//! Console-input text handling: trimming blank space and reading or writing
//! unsigned decimal numerals.

use vstd::prelude::*;
use crate::errors::Failure;

verus! {

/// The characters that count as blank space in console input: the
/// White_Space characters, the same set line trimming strips.
pub open spec fn spec_is_space(c: char) -> bool {
    ||| c == ' '
    ||| c == '\t'
    ||| c == '\n'
    ||| c == '\u{b}'
    ||| c == '\u{c}'
    ||| c == '\r'
    ||| c == '\u{85}'
    ||| c == '\u{a0}'
    ||| c == '\u{1680}'
    ||| ('\u{2000}' <= c && c <= '\u{200a}')
    ||| c == '\u{2028}'
    ||| c == '\u{2029}'
    ||| c == '\u{202f}'
    ||| c == '\u{205f}'
    ||| c == '\u{3000}'
}

pub fn is_space(c: char) -> (r: bool)
    ensures
        r == spec_is_space(c),
{
    c == ' ' || c == '\t' || c == '\n' || c == '\u{b}' || c == '\u{c}' || c == '\r' || c == '\u{85}'
        || c == '\u{a0}' || c == '\u{1680}' || ('\u{2000}' <= c && c <= '\u{200a}') || c
        == '\u{2028}' || c == '\u{2029}' || c == '\u{202f}' || c == '\u{205f}' || c == '\u{3000}'
}

/// A line with its leading blank space removed.
pub open spec fn spec_trim_front(s: Seq<char>) -> Seq<char>
    decreases s.len(),
{
    if s.len() > 0 && spec_is_space(s[0]) {
        spec_trim_front(s.skip(1))
    } else {
        s
    }
}

/// A line with its trailing blank space removed.
pub open spec fn spec_trim_back(s: Seq<char>) -> Seq<char>
    decreases s.len(),
{
    if s.len() > 0 && spec_is_space(s[s.len() - 1]) {
        spec_trim_back(s.take(s.len() - 1))
    } else {
        s
    }
}

/// A line with blank space removed from both ends.
pub open spec fn spec_trim(s: Seq<char>) -> Seq<char> {
    spec_trim_back(spec_trim_front(s))
}

proof fn lemma_trim_front_skip(s: Seq<char>, i: int)
    requires
        0 <= i <= s.len(),
        forall|j: int| 0 <= j < i ==> spec_is_space(s[j]),
        i == s.len() || !spec_is_space(s[i]),
    ensures
        spec_trim_front(s) == s.skip(i),
    decreases i,
{
    if i == 0 {
        assert(s.skip(0) =~= s);
    } else {
        lemma_trim_front_skip(s.skip(1), i - 1);
        assert(s.skip(1).skip(i - 1) =~= s.skip(i));
    }
}

proof fn lemma_trim_back_take(s: Seq<char>, k: int)
    requires
        0 <= k <= s.len(),
        forall|j: int| k <= j < s.len() ==> spec_is_space(s[j]),
        k == 0 || !spec_is_space(s[k - 1]),
    ensures
        spec_trim_back(s) == s.take(k),
    decreases s.len(),
{
    if s.len() == k {
        assert(s.take(k) =~= s);
    } else {
        lemma_trim_back_take(s.take(s.len() - 1), k);
        assert(s.take(s.len() - 1).take(k) =~= s.take(k));
    }
}

/// Remove blank space from both ends of a line, as read from the console.
pub fn trim_line(s: &str) -> (r: String)
    ensures
        r@ == spec_trim(s@),
{
    let len = s.unicode_len();
    let mut start: usize = 0;
    while start < len && is_space(s.get_char(start))
        invariant
            0 <= start <= len,
            len == s@.len(),
            forall|j: int| 0 <= j < start ==> spec_is_space(s@[j]),
        decreases len - start,
    {
        start += 1;
    }
    proof {
        lemma_trim_front_skip(s@, start as int);
    }
    if start == len {
        proof {
            assert(s@.skip(start as int) =~= Seq::<char>::empty());
        }
        String::new()
    } else {
        let mut end: usize = len;
        while end > start && is_space(s.get_char(end - 1))
            invariant
                start <= end <= len,
                len == s@.len(),
                start < len,
                !spec_is_space(s@[start as int]),
                forall|j: int| end <= j < len ==> spec_is_space(s@[j]),
            decreases end,
        {
            end -= 1;
        }
        proof {
            assert(end > start) by {
                if end == start {
                    assert(spec_is_space(s@[start as int]));
                }
            }
            let front = s@.skip(start as int);
            assert(forall|j: int|
                end - start <= j < front.len() ==> spec_is_space(#[trigger] front[j]));
            assert(front[end - start - 1] == s@[end - 1]);
            lemma_trim_back_take(front, end - start);
            assert(front.take(end - start) =~= s@.subrange(start as int, end as int));
        }
        let r = s.substring_char(start, end);
        String::from_str(r)
    }
}

/// A decimal digit character.
pub open spec fn spec_is_digit(c: char) -> bool {
    48 <= c as u32 && c as u32 <= 57
}

/// The numeric value of a decimal digit character.
pub open spec fn spec_digit_value(c: char) -> int {
    c as u32 - 48
}

/// Every character of the sequence is a decimal digit.
pub open spec fn spec_all_digits(s: Seq<char>) -> bool {
    forall|i: int| 0 <= i < s.len() ==> spec_is_digit(#[trigger] s[i])
}

/// The number a sequence of decimal digits denotes, most significant first.
pub open spec fn spec_dec_value(s: Seq<char>) -> int
    decreases s.len(),
{
    if s.len() == 0 {
        0
    } else {
        spec_dec_value(s.take(s.len() - 1)) * 10 + spec_digit_value(s[s.len() - 1])
    }
}

proof fn lemma_dec_value_nonneg(s: Seq<char>)
    requires
        spec_all_digits(s),
    ensures
        spec_dec_value(s) >= 0,
    decreases s.len(),
{
    if s.len() > 0 {
        assert(spec_all_digits(s.take(s.len() - 1)));
        lemma_dec_value_nonneg(s.take(s.len() - 1));
    }
}

/// Reading further digits never shrinks the value.
proof fn lemma_dec_value_monotonic(s: Seq<char>, k: int, l: int)
    requires
        spec_all_digits(s),
        0 <= k <= l <= s.len(),
    ensures
        spec_dec_value(s.take(k)) <= spec_dec_value(s.take(l)),
    decreases l - k,
{
    if k < l {
        lemma_dec_value_monotonic(s, k, l - 1);
        let t = s.take(l);
        assert(t.take(l - 1) =~= s.take(l - 1));
        assert(spec_all_digits(t.take(l - 1)));
        lemma_dec_value_nonneg(t.take(l - 1));
        assert(spec_dec_value(t) == spec_dec_value(s.take(l - 1)) * 10 + spec_digit_value(t[l - 1]));
    }
}

/// The digits of a numeral after an optional leading plus sign.
pub open spec fn spec_numeral_digits(s: Seq<char>) -> Seq<char> {
    if s.len() > 0 && s[0] == '+' {
        s.skip(1)
    } else {
        s
    }
}

/// A well-formed unsigned decimal numeral whose value is at most `bound`:
/// an optional plus sign, then at least one digit.
pub open spec fn spec_is_numeral(s: Seq<char>, bound: int) -> bool {
    let d = spec_numeral_digits(s);
    d.len() > 0 && spec_all_digits(d) && spec_dec_value(d) <= bound
}

/// Read an unsigned decimal numeral, exactly as far as `u32` reaches: the
/// result is the denoted value, and any other input is a parse failure.
pub fn parse_u32(s: &str) -> (r: Result<u32, Failure>)
    ensures
        match r {
            Ok(n) => spec_is_numeral(s@, u32::MAX as int) && n == spec_dec_value(
                spec_numeral_digits(s@),
            ),
            Err(e) => e == Failure::Parse && !spec_is_numeral(s@, u32::MAX as int),
        },
{
    let len = s.unicode_len();
    let mut start: usize = 0;
    if len > 0 && s.get_char(0) == '+' {
        start = 1;
    }
    let ghost digits = spec_numeral_digits(s@);
    proof {
        assert(digits =~= s@.skip(start as int));
    }
    if start == len {
        proof {
            assert(digits.len() == 0);
        }
        return Err(Failure::Parse);
    }
    let mut acc: u32 = 0;
    let mut j: usize = start;
    while j < len
        invariant
            start <= j <= len,
            start < len,
            len == s@.len(),
            digits == spec_numeral_digits(s@),
            digits == s@.skip(start as int),
            forall|k: int| start <= k < j ==> spec_is_digit(#[trigger] s@[k]),
            acc == spec_dec_value(s@.subrange(start as int, j as int)),
        decreases len - j,
    {
        let c = s.get_char(j);
        let code = c as u32;
        if code < 48 || code > 57 {
            proof {
                assert(digits[j - start] == s@[j as int]);
                assert(!spec_is_digit(digits[j - start]));
            }
            return Err(Failure::Parse);
        }
        let dv: u32 = code - 48;
        proof {
            assert(spec_is_digit(s@[j as int]));
            assert(dv == spec_digit_value(s@[j as int]));
            assert(s@.subrange(start as int, j + 1).take(j - start) =~= s@.subrange(
                start as int,
                j as int,
            ));
            assert(s@.subrange(start as int, j + 1)[j - start] == s@[j as int]);
            assert(spec_dec_value(s@.subrange(start as int, j + 1)) == acc * 10 + dv);
        }
        if acc > (u32::MAX - dv) / 10 {
            proof {
                let m = u32::MAX as int;
                assert(acc * 10 + dv > m) by (nonlinear_arith)
                    requires
                        acc > (m - dv) / 10,
                        0 <= dv <= 9,
                        acc >= 0,
                        m == 0xffff_ffff,
                ;
                assert(forall|k: int|
                    0 <= k < j + 1 - start ==> spec_is_digit(#[trigger] s@.subrange(
                        start as int,
                        j + 1,
                    )[k]));
                assert(spec_all_digits(s@.subrange(start as int, j + 1)));
                if spec_all_digits(digits) {
                    assert(digits.take(j + 1 - start) =~= s@.subrange(start as int, j + 1));
                    lemma_dec_value_monotonic(digits, j + 1 - start, digits.len() as int);
                    assert(digits.take(digits.len() as int) =~= digits);
                    assert(spec_dec_value(digits) > m);
                }
            }
            return Err(Failure::Parse);
        }
        proof {
            assert(acc * 10 + dv <= u32::MAX) by (nonlinear_arith)
                requires
                    acc <= (u32::MAX as int - dv) / 10,
                    0 <= dv <= 9,
                    acc >= 0,
            ;
        }
        acc = acc * 10 + dv;
        j += 1;
    }
    proof {
        assert(s@.subrange(start as int, len as int) =~= digits);
        assert(forall|k: int| 0 <= k < digits.len() ==> spec_is_digit(#[trigger] digits[k]));
    }
    Ok(acc)
}

/// Read an unsigned decimal numeral that must fit in a `u16`.
pub fn parse_u16(s: &str) -> (r: Result<u16, Failure>)
    ensures
        match r {
            Ok(n) => spec_is_numeral(s@, u16::MAX as int) && n == spec_dec_value(
                spec_numeral_digits(s@),
            ),
            Err(e) => e == Failure::Parse && !spec_is_numeral(s@, u16::MAX as int),
        },
{
    match parse_u32(s) {
        Ok(n) => if n <= 65535 {
            Ok(n as u16)
        } else {
            Err(Failure::Parse)
        },
        Err(e) => Err(e),
    }
}

/// The character of one decimal digit.
pub open spec fn spec_digit_char(d: int) -> char {
    if d == 0 {
        '0'
    } else if d == 1 {
        '1'
    } else if d == 2 {
        '2'
    } else if d == 3 {
        '3'
    } else if d == 4 {
        '4'
    } else if d == 5 {
        '5'
    } else if d == 6 {
        '6'
    } else if d == 7 {
        '7'
    } else if d == 8 {
        '8'
    } else {
        '9'
    }
}

/// The decimal digit string of `n`, most significant first, without leading
/// zeros (`0` itself is written as one digit).
pub open spec fn spec_dec_digits(n: nat) -> Seq<char>
    decreases n,
{
    if n < 10 {
        seq![spec_digit_char(n as int)]
    } else {
        spec_dec_digits(n / 10) + seq![spec_digit_char((n % 10) as int)]
    }
}

fn digit_str(d: u32) -> (r: &'static str)
    requires
        d < 10,
    ensures
        r@ == seq![spec_digit_char(d as int)],
{
    if d == 0 {
        proof {
            reveal_strlit("0");
            assert("0"@ =~= seq![spec_digit_char(0)]);
        }
        "0"
    } else if d == 1 {
        proof {
            reveal_strlit("1");
            assert("1"@ =~= seq![spec_digit_char(1)]);
        }
        "1"
    } else if d == 2 {
        proof {
            reveal_strlit("2");
            assert("2"@ =~= seq![spec_digit_char(2)]);
        }
        "2"
    } else if d == 3 {
        proof {
            reveal_strlit("3");
            assert("3"@ =~= seq![spec_digit_char(3)]);
        }
        "3"
    } else if d == 4 {
        proof {
            reveal_strlit("4");
            assert("4"@ =~= seq![spec_digit_char(4)]);
        }
        "4"
    } else if d == 5 {
        proof {
            reveal_strlit("5");
            assert("5"@ =~= seq![spec_digit_char(5)]);
        }
        "5"
    } else if d == 6 {
        proof {
            reveal_strlit("6");
            assert("6"@ =~= seq![spec_digit_char(6)]);
        }
        "6"
    } else if d == 7 {
        proof {
            reveal_strlit("7");
            assert("7"@ =~= seq![spec_digit_char(7)]);
        }
        "7"
    } else if d == 8 {
        proof {
            reveal_strlit("8");
            assert("8"@ =~= seq![spec_digit_char(8)]);
        }
        "8"
    } else {
        proof {
            reveal_strlit("9");
            assert("9"@ =~= seq![spec_digit_char(9)]);
        }
        "9"
    }
}

/// Write `n` as a decimal string.
pub fn dec_string_u32(n: u32) -> (r: String)
    ensures
        r@ == spec_dec_digits(n as nat),
    decreases n,
{
    if n < 10 {
        String::from_str(digit_str(n))
    } else {
        proof {
            assert(n / 10 < n) by (nonlinear_arith)
                requires
                    n >= 10,
            ;
        }
        let mut r = dec_string_u32(n / 10);
        r.append(digit_str(n % 10));
        r
    }
}

/// A decimal string written by `spec_dec_digits` reads back as the number it
/// was written from: formatting and parsing are inverse.
pub proof fn lemma_dec_digits_value(n: nat)
    ensures
        spec_all_digits(spec_dec_digits(n)),
        spec_dec_value(spec_dec_digits(n)) == n,
        spec_dec_digits(n).len() > 0,
    decreases n,
{
    if n < 10 {
        let s = spec_dec_digits(n);
        assert(s.len() == 1);
        assert(s.take(0) =~= Seq::<char>::empty());
        assert(spec_dec_value(Seq::<char>::empty()) == 0);
        assert(spec_digit_value(spec_digit_char(n as int)) == n);
        assert(spec_dec_value(s) == spec_dec_value(s.take(0)) * 10 + spec_digit_value(s[0]));
    } else {
        lemma_dec_digits_value(n / 10);
        let h = spec_dec_digits(n / 10);
        let s = spec_dec_digits(n);
        assert(s.take(s.len() - 1) =~= h);
        assert(spec_digit_value(spec_digit_char((n % 10) as int)) == n % 10);
        assert(spec_dec_value(s) == spec_dec_value(h) * 10 + n % 10);
        vstd::arithmetic::div_mod::lemma_fundamental_div_mod(n as int, 10);
    }
}

} // verus!
