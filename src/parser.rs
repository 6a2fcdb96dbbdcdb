//! The grammar of the debugger's replies: the address range of a memory
//! write, the integer at the end of a print or call result, and the result
//! line of a call.

use crate::error::LoaderError;
use crate::text::{
    all_digits, chars_of, digits_value, is_decimal_digit, is_hex_digit, is_white_space,
    is_white_space_char, parse_digits_u32, trailing_white_start,
};
use vstd::prelude::*;

verus! {

/// `(0x`, which opens an address range.
pub open spec fn range_open() -> Seq<char> {
    seq!['(', '0', 'x']
}

/// ` to 0x`, between the two addresses of a range.
pub open spec fn range_middle() -> Seq<char> {
    seq![' ', 't', 'o', ' ', '0', 'x']
}

/// `w` stands in `s` at index `i`.
pub open spec fn word_at(s: Seq<char>, i: int, w: Seq<char>) -> bool {
    0 <= i && i + w.len() <= s.len() && s.subrange(i, i + w.len()) == w
}

/// The end of the run of hexadecimal digits that starts at `i`.
pub open spec fn hex_run_end(s: Seq<char>, i: int) -> int
    decreases s.len() - i,
{
    if 0 <= i < s.len() && is_hex_digit(s[i]) {
        hex_run_end(s, i + 1)
    } else {
        i
    }
}

/// Where the first address of a range that opens at `p` ends.
pub open spec fn range_first_end(s: Seq<char>, p: int) -> int {
    hex_run_end(s, p + 3)
}

/// Where the second address of a range that opens at `p` ends.
pub open spec fn range_second_end(s: Seq<char>, p: int) -> int {
    hex_run_end(s, range_first_end(s, p) + 6)
}

/// `(0x<hex> to 0x<hex>)` stands in `s` at index `p`.
pub open spec fn range_match_at(s: Seq<char>, p: int) -> bool {
    let e1 = range_first_end(s, p);
    let e2 = range_second_end(s, p);
    &&& word_at(s, p, range_open())
    &&& e1 > p + 3
    &&& word_at(s, e1, range_middle())
    &&& e2 > e1 + 6
    &&& e2 < s.len()
    &&& s[e2] == ')'
}

/// The leftmost index at or after `p` where an address range stands.
pub open spec fn first_range_from(s: Seq<char>, p: int) -> Option<int>
    decreases s.len() - p,
{
    if p < 0 || p >= s.len() {
        None
    } else if range_match_at(s, p) {
        Some(p)
    } else {
        first_range_from(s, p + 1)
    }
}

/// The two addresses of the leftmost address range of a line, as numbers.
pub open spec fn address_range_of(s: Seq<char>) -> Option<(nat, nat)> {
    match first_range_from(s, 0) {
        Some(p) => Some(
            (
                digits_value(s.subrange(p + 3, range_first_end(s, p)), 16),
                digits_value(s.subrange(range_first_end(s, p) + 6, range_second_end(s, p)), 16),
            ),
        ),
        None => None,
    }
}

/// What extracting the address range of a line gives: both addresses where
/// the range stands and each fits in 32 bits, else nothing.
pub open spec fn address_range_result(s: Seq<char>) -> Option<(u32, u32)> {
    match address_range_of(s) {
        Some((a, b)) => if a <= u32::MAX && b <= u32::MAX {
            Some((a as u32, b as u32))
        } else {
            None
        },
        None => None,
    }
}

fn is_hex_char(c: char) -> (r: bool)
    ensures
        r == is_hex_digit(c),
{
    ('0' <= c && c <= '9') || ('a' <= c && c <= 'f') || ('A' <= c && c <= 'F')
}

fn hex_run_end_at(s: &Vec<char>, i: usize) -> (r: usize)
    requires
        i <= s@.len(),
    ensures
        r == hex_run_end(s@, i as int),
        i <= r <= s@.len(),
        all_digits(s@, i as int, r as int, 16),
{
    let mut j: usize = i;
    while j < s.len() && is_hex_char(s[j])
        invariant
            i <= j <= s@.len(),
            hex_run_end(s@, j as int) == hex_run_end(s@, i as int),
            all_digits(s@, i as int, j as int, 16),
        decreases s@.len() - j,
    {
        j = j + 1;
    }
    j
}

fn word_at_exec(s: &Vec<char>, i: usize, w: &Vec<char>) -> (r: bool)
    ensures
        r == word_at(s@, i as int, w@),
{
    let n = s.len();
    if i > n || w.len() > n - i {
        return false;
    }
    let mut k: usize = 0;
    while k < w.len()
        invariant
            n == s@.len(),
            i + w@.len() <= n,
            k <= w@.len(),
            forall|m: int| 0 <= m < k ==> s@[i + m] == w@[m],
        decreases w@.len() - k,
    {
        if s[i + k] != w[k] {
            proof {
                assert(s@.subrange(i as int, i + w@.len())[k as int] != w@[k as int]);
            }
            return false;
        }
        k = k + 1;
    }
    proof {
        assert(s@.subrange(i as int, i + w@.len()) =~= w@);
    }
    true
}

/// Where the first and second address of a range at `p` end, if one stands there.
fn range_match_at_exec(s: &Vec<char>, p: usize) -> (r: Option<(usize, usize)>)
    requires
        p < s@.len(),
    ensures
        r is Some <==> range_match_at(s@, p as int),
        r matches Some((e1, e2)) ==> {
            &&& e1 == range_first_end(s@, p as int)
            &&& e2 == range_second_end(s@, p as int)
            &&& p + 3 < e1
            &&& e1 + 6 < e2 < s@.len()
            &&& all_digits(s@, p + 3, e1 as int, 16)
            &&& all_digits(s@, e1 + 6, e2 as int, 16)
        },
{
    let n = s.len();
    let open = vec!['(', '0', 'x'];
    let middle = vec![' ', 't', 'o', ' ', '0', 'x'];
    proof {
        assert(open@ == range_open());
        assert(middle@ == range_middle());
    }
    if !word_at_exec(s, p, &open) {
        return None;
    }
    let e1 = hex_run_end_at(s, p + 3);
    if e1 == p + 3 || !word_at_exec(s, e1, &middle) {
        return None;
    }
    let e2 = hex_run_end_at(s, e1 + 6);
    if e2 == e1 + 6 || e2 >= n || s[e2] != ')' {
        return None;
    }
    Some((e1, e2))
}

/// Extracts the two addresses of the first `(0x<hex> to 0x<hex>)` in a line,
/// as a memory write reports them. Nothing comes back where the pattern is
/// absent, or where an address of the first such range does not fit in 32 bits.
pub fn extract_adresses_from_response_line(line: &str) -> (r: Option<(u32, u32)>)
    ensures
        r == address_range_result(line@),
{
    let s = chars_of(line);
    let mut p: usize = 0;
    while p < s.len()
        invariant
            s@ == line@,
            p <= s@.len(),
            first_range_from(s@, 0) == first_range_from(s@, p as int),
        decreases s@.len() - p,
    {
        if let Some((e1, e2)) = range_match_at_exec(&s, p) {
            let first = parse_digits_u32(&s, p + 3, e1, 16);
            let second = parse_digits_u32(&s, e1 + 6, e2, 16);
            return match (first, second) {
                (Some(a), Some(b)) => Some((a, b)),
                _ => None,
            };
        }
        p = p + 1;
    }
    None
}


/// The index of the last white space in `s` before `end`, or -1 where there
/// is none.
pub open spec fn last_white_before(s: Seq<char>, end: int) -> int
    decreases end,
{
    if end <= 0 {
        -1
    } else if is_white_space(s[end - 1]) {
        end - 1
    } else {
        last_white_before(s, end - 1)
    }
}

/// The last whitespace-separated token of a line: what stands between the
/// last white space and the white space that ends the line (empty where the
/// line is empty or all white space).
pub open spec fn last_token(s: Seq<char>) -> Seq<char> {
    let e = trailing_white_start(s, s.len() as int);
    s.subrange(last_white_before(s, e) + 1, e)
}

/// The digits of an unsigned decimal token, after an optional `+`.
pub open spec fn token_digits(t: Seq<char>) -> Seq<char> {
    if t.len() > 0 && t[0] == '+' {
        t.drop_first()
    } else {
        t
    }
}

/// The value of an unsigned decimal token: an optional `+` and one digit or more.
pub open spec fn decimal_token_value(t: Seq<char>) -> Option<nat> {
    let d = token_digits(t);
    if d.len() > 0 && all_digits(d, 0, d.len() as int, 10) {
        Some(digits_value(d, 10))
    } else {
        None
    }
}

/// What extracting the trailing integer of a line gives: the value of its last
/// token where that token is an unsigned decimal integer that fits in 32 bits.
pub open spec fn trailing_integer_result(s: Seq<char>) -> Option<u32> {
    match decimal_token_value(last_token(s)) {
        Some(v) => if v <= u32::MAX {
            Some(v as u32)
        } else {
            None
        },
        None => None,
    }
}

/// Extracts the integer at the end of a line such as `$12 = 8228421`: the
/// last whitespace-separated token, read as an unsigned decimal number. Nothing
/// comes back where that token is not such a number or does not fit in 32 bits.
pub fn extract_variable_value_from_response_line(line: &str) -> (r: Option<u32>)
    ensures
        r == trailing_integer_result(line@),
{
    let s = chars_of(line);
    let n = s.len();
    let mut e: usize = n;
    while e > 0 && is_white_space_char(s[e - 1])
        invariant
            s@ == line@,
            n == s@.len(),
            e <= n,
            trailing_white_start(s@, e as int) == trailing_white_start(s@, n as int),
        decreases e,
    {
        e = e - 1;
    }
    let mut start: usize = e;
    while start > 0 && !is_white_space_char(s[start - 1])
        invariant
            s@ == line@,
            n == s@.len(),
            start <= e <= n,
            e == trailing_white_start(s@, n as int),
            last_white_before(s@, start as int) == last_white_before(s@, e as int),
        decreases start,
    {
        start = start - 1;
    }
    let ghost tok = last_token(s@);
    proof {
        assert(tok == s@.subrange(start as int, e as int));
    }
    let mut from: usize = start;
    if from < e && s[from] == '+' {
        from = from + 1;
    }
    proof {
        assert(token_digits(tok) == s@.subrange(from as int, e as int));
    }
    if from == e {
        return None;
    }
    let mut k: usize = from;
    while k < e
        invariant
            from <= k <= e,
            e <= n,
            n == s@.len(),
            s@ == line@,
            token_digits(last_token(s@)) == s@.subrange(from as int, e as int),
            all_digits(s@, from as int, k as int, 10),
        decreases e - k,
    {
        if !('0' <= s[k] && s[k] <= '9') {
            proof {
                let d = s@.subrange(from as int, e as int);
                assert(d[k - from] == s@[k as int]);
                assert(!all_digits(d, 0, d.len() as int, 10));
            }
            return None;
        }
        k = k + 1;
    }
    proof {
        let d = s@.subrange(from as int, e as int);
        assert forall|i: int| 0 <= i < d.len() implies is_decimal_digit(#[trigger] d[i]) by {
            assert(d[i] == s@[from + i]);
        }
    }
    parse_digits_u32(&s, from, e, 10)
}


/// The result of a call: nothing where no return value is expected, else the
/// first response line as it stands, or `NoReturnValue` where there is none.
pub fn extract_call_result(results: Vec<String>, has_return: bool) -> (r: Result<String, LoaderError>)
    ensures
        !has_return ==> (r matches Ok(t) && t@ == Seq::<char>::empty()),
        has_return && results@.len() > 0 ==> r == Ok::<String, LoaderError>(results@[0]),
        has_return && results@.len() == 0 ==> r == Err::<String, LoaderError>(
            LoaderError::NoReturnValue,
        ),
{
    if !has_return {
        Ok(String::new())
    } else if results.len() == 0 {
        Err(LoaderError::NoReturnValue)
    } else {
        Ok(results[0].clone())
    }
}

/// What a memory write's reply gives: the byte count `end - start` of the
/// address range on its first line.
pub open spec fn restore_reply_result(lines: Seq<String>) -> Result<u32, LoaderError> {
    if lines.len() == 0 {
        Err(LoaderError::MalformedResponse)
    } else {
        match address_range_result(lines[0]@) {
            Some((start, end)) => if start <= end {
                Ok((end - start) as u32)
            } else {
                Err(LoaderError::MalformedResponse)
            },
            None => Err(LoaderError::MalformedResponse),
        }
    }
}

/// Reads the byte count that a memory write reports, from the address range
/// on the first line of its reply (`... into memory (0x<start> to 0x<end>)`).
/// A reply without such a line, or whose range runs backwards, is malformed.
pub fn parse_restore_reply(lines: &Vec<String>) -> (r: Result<u32, LoaderError>)
    ensures
        r == restore_reply_result(lines@),
{
    if lines.len() == 0 {
        return Err(LoaderError::MalformedResponse);
    }
    match extract_adresses_from_response_line(lines[0].as_str()) {
        Some((start, end)) => if start <= end {
            Ok(end - start)
        } else {
            Err(LoaderError::MalformedResponse)
        },
        None => Err(LoaderError::MalformedResponse),
    }
}

/// What the reply to a print of an integer variable gives: the trailing
/// integer of its first line.
pub open spec fn print_reply_result(lines: Seq<String>) -> Result<u32, LoaderError> {
    if lines.len() == 0 {
        Err(LoaderError::MalformedResponse)
    } else {
        match trailing_integer_result(lines[0]@) {
            Some(v) => Ok(v),
            None => Err(LoaderError::MalformedResponse),
        }
    }
}

/// Reads an integer variable's value from the reply to a print
/// (`$12 = 8228421`); a reply without such a first line is malformed.
pub fn parse_print_reply(lines: &Vec<String>) -> (r: Result<u32, LoaderError>)
    ensures
        r == print_reply_result(lines@),
{
    if lines.len() == 0 {
        return Err(LoaderError::MalformedResponse);
    }
    match extract_variable_value_from_response_line(lines[0].as_str()) {
        Some(v) => Ok(v),
        None => Err(LoaderError::MalformedResponse),
    }
}

/// What the reply to a call gives as an integer return value.
pub open spec fn call_value_result(lines: Seq<String>, has_return: bool) -> Result<u32, LoaderError> {
    if !has_return {
        Err(LoaderError::MalformedResponse)
    } else if lines.len() == 0 {
        Err(LoaderError::NoReturnValue)
    } else {
        match trailing_integer_result(lines[0]@) {
            Some(v) => Ok(v),
            None => Err(LoaderError::MalformedResponse),
        }
    }
}

/// Reads the integer that a call returned (`$23 = 118`) from its reply.
/// A call without a return value has no integer to read, and a result line
/// that does not end in one is malformed.
pub fn parse_call_value(lines: Vec<String>, has_return: bool) -> (r: Result<u32, LoaderError>)
    ensures
        r == call_value_result(lines@, has_return),
{
    let ghost all = lines@;
    match extract_call_result(lines, has_return) {
        Ok(text) => {
            let v = extract_variable_value_from_response_line(text.as_str());
            proof {
                if !has_return {
                    assert(trailing_white_start(text@, 0) == 0);
                    assert(last_white_before(text@, 0) == -1);
                    assert(last_token(text@) =~= Seq::<char>::empty());
                }
            }
            match v {
                Some(v) => Ok(v),
                None => Err(LoaderError::MalformedResponse),
            }
        },
        Err(e) => Err(e),
    }
}

} // verus!
