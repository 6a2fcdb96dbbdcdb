//! Small verified helpers on text: a string's characters, digits and their
//! values, and the decimal spelling of a number.

use vstd::prelude::*;
use vstd::string::StringExecFns;

verus! {

/// The characters of `s`, in order.
pub fn chars_of(s: &str) -> (v: Vec<char>)
    ensures
        v@ == s@,
{
    let mut v: Vec<char> = Vec::new();
    for c in it: s.chars()
        invariant
            v@ == it.seq().take(it.index() as int),
    {
        v.push(c);
    }
    v
}

/// `c` has Unicode's White_Space property: tab to carriage return, space,
/// next line, no-break space, ogham space mark, the spaces from en quad to
/// hair space, line and paragraph separator, narrow no-break space, medium
/// mathematical space and ideographic space.
pub open spec fn is_white_space(c: char) -> bool {
    ||| '\t' <= c <= '\r'
    ||| c == ' '
    ||| c == '\u{85}'
    ||| c == '\u{a0}'
    ||| c == '\u{1680}'
    ||| '\u{2000}' <= c <= '\u{200a}'
    ||| c == '\u{2028}'
    ||| c == '\u{2029}'
    ||| c == '\u{202f}'
    ||| c == '\u{205f}'
    ||| c == '\u{3000}'
}

/// Whether `c` is white space.
pub fn is_white_space_char(c: char) -> (r: bool)
    ensures
        r == is_white_space(c),
{
    ('\t' <= c && c <= '\r') || c == ' ' || c == '\u{85}' || c == '\u{a0}' || c == '\u{1680}'
        || ('\u{2000}' <= c && c <= '\u{200a}') || c == '\u{2028}' || c == '\u{2029}' || c
        == '\u{202f}' || c == '\u{205f}' || c == '\u{3000}'
}

/// The end of the run of white space that starts at `i`.
pub open spec fn leading_white_end(s: Seq<char>, i: int) -> int
    decreases s.len() - i,
{
    if 0 <= i < s.len() && is_white_space(s[i]) {
        leading_white_end(s, i + 1)
    } else {
        i
    }
}

/// The start of the run of white space that ends at `end`.
pub open spec fn trailing_white_start(s: Seq<char>, end: int) -> int
    decreases end,
{
    if 0 < end <= s.len() && is_white_space(s[end - 1]) {
        trailing_white_start(s, end - 1)
    } else {
        end
    }
}

/// `s` without its leading and trailing white space.
pub open spec fn trim_of(s: Seq<char>) -> Seq<char> {
    let b = leading_white_end(s, 0);
    let e = trailing_white_start(s, s.len() as int);
    if b >= e {
        Seq::empty()
    } else {
        s.subrange(b, e)
    }
}

/// `c` is one of `0`..`9`.
pub open spec fn is_decimal_digit(c: char) -> bool {
    '0' <= c <= '9'
}

/// `c` is one of `0`..`9`, `a`..`f`, `A`..`F`.
pub open spec fn is_hex_digit(c: char) -> bool {
    ||| '0' <= c <= '9'
    ||| 'a' <= c <= 'f'
    ||| 'A' <= c <= 'F'
}

/// The value of a hexadecimal digit.
pub open spec fn hex_digit_value(c: char) -> nat {
    if '0' <= c <= '9' {
        (c as int - '0' as int) as nat
    } else if 'a' <= c <= 'f' {
        (c as int - 'a' as int + 10) as nat
    } else {
        (c as int - 'A' as int + 10) as nat
    }
}

/// The value of a run of digits in base `base`, most significant first.
pub open spec fn digits_value(s: Seq<char>, base: nat) -> nat
    decreases s.len(),
{
    if s.len() == 0 {
        0
    } else {
        digits_value(s.drop_last(), base) * base + hex_digit_value(s.last())
    }
}

/// Every character of `s` in `[from, to)` is a digit of `base` (10 or 16).
pub open spec fn all_digits(s: Seq<char>, from: int, to: int, base: nat) -> bool {
    forall|i: int|
        from <= i < to ==> if base == 16 {
            is_hex_digit(#[trigger] s[i])
        } else {
            is_decimal_digit(s[i])
        }
}

/// Reads the digits `s[from..to]` in base `base` (10 or 16); `None` where
/// the value does not fit in a `u32`.
pub fn parse_digits_u32(s: &Vec<char>, from: usize, to: usize, base: u64) -> (r: Option<u32>)
    requires
        from <= to <= s@.len(),
        base == 10 || base == 16,
        all_digits(s@, from as int, to as int, base as nat),
    ensures
        r == (if digits_value(s@.subrange(from as int, to as int), base as nat) <= u32::MAX {
            Some(digits_value(s@.subrange(from as int, to as int), base as nat) as u32)
        } else {
            None::<u32>
        }),
{
    let cap: u64 = 0x1_0000_0000;
    let mut acc: u64 = 0;
    let mut i: usize = from;
    while i < to
        invariant
            from <= i <= to <= s@.len(),
            base == 10 || base == 16,
            all_digits(s@, from as int, to as int, base as nat),
            cap == 0x1_0000_0000,
            acc as nat == (if digits_value(s@.subrange(from as int, i as int), base as nat) < cap {
                digits_value(s@.subrange(from as int, i as int), base as nat)
            } else {
                cap as nat
            }),
        decreases to - i,
    {
        let c = s[i];
        let d: u64 = if '0' <= c && c <= '9' {
            (c as u64) - ('0' as u64)
        } else if 'a' <= c && c <= 'f' {
            (c as u64) - ('a' as u64) + 10
        } else {
            (c as u64) - ('A' as u64) + 10
        };
        let ghost prev = digits_value(s@.subrange(from as int, i as int), base as nat);
        proof {
            let sub = s@.subrange(from as int, i + 1);
            assert(sub.drop_last() == s@.subrange(from as int, i as int));
            assert(sub.last() == c);
            assert(d == hex_digit_value(c));
            assert(d < base) by {
                assert(all_digits(s@, from as int, to as int, base as nat));
                assert(from <= i < to);
                if base == 16 {
                    assert(is_hex_digit(s@[i as int]));
                } else {
                    assert(is_decimal_digit(s@[i as int]));
                }
            }
            assert(digits_value(sub, base as nat) == prev * base + d);
            if prev >= cap {
                assert(prev * base + d >= cap) by (nonlinear_arith)
                    requires
                        prev >= cap,
                        base >= 10,
                ;
            }
        }
        let next = acc * base + d;
        acc = if next < cap {
            next
        } else {
            cap
        };
        i = i + 1;
    }
    if acc < cap {
        Some(acc as u32)
    } else {
        None
    }
}

/// The decimal spelling of a digit below ten.
pub open spec fn decimal_digit_char(d: nat) -> char {
    if d == 0 {
        '0'
    } else if d == 1 {
        '1'
    } else if d == 2 {
        '2'
    } else if d == 3 {
        '3'
    } else if d == 4 {
        '4'
    } else if d == 5 {
        '5'
    } else if d == 6 {
        '6'
    } else if d == 7 {
        '7'
    } else if d == 8 {
        '8'
    } else {
        '9'
    }
}

/// The decimal spelling of `n`: no sign, no leading zeros.
pub open spec fn decimal_text_of(n: nat) -> Seq<char>
    decreases n,
{
    if n < 10 {
        seq![decimal_digit_char(n)]
    } else {
        decimal_text_of(n / 10).push(decimal_digit_char(n % 10))
    }
}

/// The decimal spelling of a number is made of decimal digits only.
pub proof fn lemma_decimal_text_digits(n: nat)
    ensures
        forall|i: int|
            0 <= i < decimal_text_of(n).len() ==> is_decimal_digit(#[trigger] decimal_text_of(n)[i]),
    decreases n,
{
    let t = decimal_text_of(n);
    if n < 10 {
        assert(is_decimal_digit(decimal_digit_char(n)));
        assert(t == seq![decimal_digit_char(n)]);
    } else {
        lemma_decimal_text_digits(n / 10);
        let p = decimal_text_of(n / 10);
        let c = decimal_digit_char(n % 10);
        assert(is_decimal_digit(c));
        assert(t == p.push(c));
        assert forall|i: int| 0 <= i < t.len() implies is_decimal_digit(#[trigger] t[i]) by {
            if i < p.len() {
                assert(t[i] == p[i]);
            }
        }
    }
}

/// The one-character spelling of a digit below ten.
fn digit_text(d: u64) -> (r: &'static str)
    requires
        d < 10,
    ensures
        r@ == seq![decimal_digit_char(d as nat)],
{
    proof {
        reveal_strlit("0");
        reveal_strlit("1");
        reveal_strlit("2");
        reveal_strlit("3");
        reveal_strlit("4");
        reveal_strlit("5");
        reveal_strlit("6");
        reveal_strlit("7");
        reveal_strlit("8");
        reveal_strlit("9");
    }
    let r = if d == 0 {
        "0"
    } else if d == 1 {
        "1"
    } else if d == 2 {
        "2"
    } else if d == 3 {
        "3"
    } else if d == 4 {
        "4"
    } else if d == 5 {
        "5"
    } else if d == 6 {
        "6"
    } else if d == 7 {
        "7"
    } else if d == 8 {
        "8"
    } else {
        "9"
    };
    assert(r@ =~= seq![decimal_digit_char(d as nat)]);
    r
}

/// The decimal spelling of `n`: no sign, no leading zeros.
pub fn decimal_text(n: u64) -> (r: String)
    ensures
        r@ == decimal_text_of(n as nat),
    decreases n,
{
    if n < 10 {
        String::from_str(digit_text(n))
    } else {
        let mut r = decimal_text(n / 10);
        r.append(digit_text(n % 10));
        r
    }
}

} // verus!
