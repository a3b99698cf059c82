//! Verified text utilities: decimal formatting and parsing, trimming,
//! line splitting and tokenization, as the cgroup control-file protocol
//! needs them.

use vstd::prelude::*;

verus! {

/// The decimal digit character for `d` (meaningful for `d < 10`).
pub open spec fn digit_char(d: nat) -> char {
    if d == 0 {
        '0'
    } else if d == 1 {
        '1'
    } else if d == 2 {
        '2'
    } else if d == 3 {
        '3'
    } else if d == 4 {
        '4'
    } else if d == 5 {
        '5'
    } else if d == 6 {
        '6'
    } else if d == 7 {
        '7'
    } else if d == 8 {
        '8'
    } else {
        '9'
    }
}

/// The decimal representation of `n`: no sign, no leading zeros,
/// `0` written as `"0"`.
pub open spec fn dec_str(n: nat) -> Seq<char>
    decreases n,
{
    if n < 10 {
        seq![digit_char(n)]
    } else {
        dec_str(n / 10).push(digit_char(n % 10))
    }
}

/// The decimal representation of a signed value: a leading `'-'` before
/// the magnitude when `v` is negative.
pub open spec fn dec_str_int(v: int) -> Seq<char> {
    if v < 0 {
        seq!['-'] + dec_str((-v) as nat)
    } else {
        dec_str(v as nat)
    }
}

fn digit_to_str(d: u64) -> (r: &'static str)
    requires
        d < 10,
    ensures
        r@ == seq![digit_char(d as nat)],
{
    let r: &'static str = if d == 0 {
        proof {
            reveal_strlit("0");
        }
        "0"
    } else if d == 1 {
        proof {
            reveal_strlit("1");
        }
        "1"
    } else if d == 2 {
        proof {
            reveal_strlit("2");
        }
        "2"
    } else if d == 3 {
        proof {
            reveal_strlit("3");
        }
        "3"
    } else if d == 4 {
        proof {
            reveal_strlit("4");
        }
        "4"
    } else if d == 5 {
        proof {
            reveal_strlit("5");
        }
        "5"
    } else if d == 6 {
        proof {
            reveal_strlit("6");
        }
        "6"
    } else if d == 7 {
        proof {
            reveal_strlit("7");
        }
        "7"
    } else if d == 8 {
        proof {
            reveal_strlit("8");
        }
        "8"
    } else {
        proof {
            reveal_strlit("9");
        }
        "9"
    };
    proof {
        assert(r@ =~= seq![digit_char(d as nat)]);
    }
    r
}

/// Formats `n` in decimal.
pub fn u64_to_string(n: u64) -> (s: String)
    ensures
        s@ == dec_str(n as nat),
    decreases n,
{
    if n < 10 {
        String::from_str(digit_to_str(n))
    } else {
        let mut s = u64_to_string(n / 10);
        s.append(digit_to_str(n % 10));
        proof {
            assert(s@ =~= dec_str(n as nat));
        }
        s
    }
}

/// Formats `n` in decimal.
pub fn u32_to_string(n: u32) -> (s: String)
    ensures
        s@ == dec_str(n as nat),
{
    u64_to_string(n as u64)
}

/// Formats `v` in decimal, with a leading minus sign when negative.
pub fn i64_to_string(v: i64) -> (s: String)
    ensures
        s@ == dec_str_int(v as int),
{
    if v >= 0 {
        let s = u64_to_string(v as u64);
        s
    } else {
        let mag: u64 = if v == i64::MIN {
            9223372036854775808u64
        } else {
            (-v) as u64
        };
        proof {
            reveal_strlit("-");
        }
        let mut s = String::from_str("-");
        let m = u64_to_string(mag);
        s.append(m.as_str());
        proof {
            assert(s@ =~= dec_str_int(v as int));
        }
        s
    }
}

/// Whether `c` is a decimal digit.
pub open spec fn is_digit(c: char) -> bool {
    '0' <= c && c <= '9'
}

/// Whether every character of `s` is a decimal digit.
pub open spec fn all_digits(s: Seq<char>) -> bool {
    forall|i: int| 0 <= i < s.len() ==> is_digit(#[trigger] s[i])
}

/// The numeric value of the digit `c`.
pub open spec fn digit_val(c: char) -> nat {
    (c as int - '0' as int) as nat
}

/// The value of a digit string, read left to right.
pub open spec fn dec_val(s: Seq<char>) -> nat
    decreases s.len(),
{
    if s.len() == 0 {
        0
    } else {
        dec_val(s.drop_last()) * 10 + digit_val(s.last())
    }
}

/// A longer digit string never has a smaller value.
proof fn lemma_dec_val_prefix_le(s: Seq<char>, i: int)
    requires
        0 <= i <= s.len(),
    ensures
        dec_val(s.take(i)) <= dec_val(s),
    decreases s.len() - i,
{
    if i < s.len() {
        assert(s.take(i + 1).drop_last() =~= s.take(i));
        assert(dec_val(s.take(i + 1)) == dec_val(s.take(i)) * 10 + digit_val(s.take(i + 1).last()));
        lemma_dec_val_prefix_le(s, i + 1);
    } else {
        assert(s.take(i) =~= s);
    }
}

/// What `parse_digits` returns of a digit string: its value, when the
/// string is non-empty, all digits, and the value fits in a `u64`.
pub open spec fn parse_digits_spec(t: Seq<char>) -> Option<u64> {
    if t.len() > 0 && all_digits(t) && dec_val(t) <= u64::MAX {
        Some(dec_val(t) as u64)
    } else {
        None
    }
}

fn char_digit(c: char) -> (r: Option<u64>)
    ensures
        r is Some <==> is_digit(c),
        r is Some ==> r->0 == digit_val(c) && r->0 < 10,
{
    let u = c as u32;
    if u >= 48 && u <= 57 {
        Some((u - 48) as u64)
    } else {
        None
    }
}

/// Parses the suffix of `s` starting at `start` as an unsigned decimal
/// number, exactly when it is non-empty, entirely digits, and in range.
fn parse_digits(s: &str, start: usize) -> (r: Option<u64>)
    requires
        start <= s@.len(),
    ensures
        r == parse_digits_spec(s@.skip(start as int)),
{
    let len = s.unicode_len();
    let ghost t = s@.skip(start as int);
    if start == len {
        return None;
    }
    let mut acc: u64 = 0;
    let mut j: usize = start;
    while j < len
        invariant
            start <= j <= len,
            len == s@.len(),
            t == s@.skip(start as int),
            all_digits(t.take(j - start)),
            acc == dec_val(t.take(j - start)),
        decreases len - j,
    {
        let c = s.get_char(j);
        proof {
            assert(t[j - start] == s@[j as int]);
        }
        match char_digit(c) {
            None => {
                proof {
                    assert(!is_digit(t[j - start]));
                }
                return None;
            },
            Some(d) => {
                // `acc * 10 + d` overflows exactly when the value read so far
                // already exceeds what a u64 can hold.
                let limit = (u64::MAX - d) / 10;
                proof {
                    assert((u64::MAX - d) == limit * 10 + (u64::MAX - d) % 10) by {
                        vstd::arithmetic::div_mod::lemma_fundamental_div_mod(
                            (u64::MAX - d) as int,
                            10,
                        );
                    }
                }
                if acc > limit {
                    proof {
                        assert(t.take(j - start + 1).drop_last() =~= t.take(j - start));
                        assert(dec_val(t.take(j - start + 1)) > u64::MAX);
                        lemma_dec_val_prefix_le(t, j - start + 1);
                    }
                    return None;
                }
                proof {
                    assert(t.take(j - start + 1).drop_last() =~= t.take(j - start));
                }
                acc = acc * 10 + d;
                j = j + 1;
            },
        }
    }
    proof {
        assert(t.take(j - start) =~= t);
    }
    Some(acc)
}

/// What `parse_u64` returns: the value of the digits after an optional
/// leading `'+'`, when well formed and in range.
pub open spec fn parse_u64_spec(s: Seq<char>) -> Option<u64> {
    if s.len() > 0 && s[0] == '+' {
        parse_digits_spec(s.skip(1))
    } else {
        parse_digits_spec(s)
    }
}

/// Parses an unsigned decimal number, as the standard integer parser
/// reads one: an optional `'+'`, then one or more digits, in range.
pub fn parse_u64(s: &str) -> (r: Option<u64>)
    ensures
        r == parse_u64_spec(s@),
{
    let len = s.unicode_len();
    if len > 0 && s.get_char(0) == '+' {
        parse_digits(s, 1)
    } else {
        proof {
            assert(s@.skip(0) =~= s@);
        }
        parse_digits(s, 0)
    }
}

/// What `parse_u32` returns: as `parse_u64`, further bounded to `u32`.
pub open spec fn parse_u32_spec(s: Seq<char>) -> Option<u32> {
    match parse_u64_spec(s) {
        Some(v) => if v <= u32::MAX {
            Some(v as u32)
        } else {
            None
        },
        None => None,
    }
}

/// Parses an unsigned decimal number that must fit in a `u32`.
pub fn parse_u32(s: &str) -> (r: Option<u32>)
    ensures
        r == parse_u32_spec(s@),
{
    match parse_u64(s) {
        Some(v) => if v <= u32::MAX as u64 {
            Some(v as u32)
        } else {
            None
        },
        None => None,
    }
}

/// What `parse_i64` returns: an optional sign, then digits; the value
/// must fit in an `i64`.
pub open spec fn parse_i64_spec(s: Seq<char>) -> Option<i64> {
    if s.len() > 0 && s[0] == '-' {
        match parse_digits_spec(s.skip(1)) {
            Some(m) => if m <= 0x8000000000000000u64 {
                Some((-(m as int)) as i64)
            } else {
                None
            },
            None => None,
        }
    } else if s.len() > 0 && s[0] == '+' {
        match parse_digits_spec(s.skip(1)) {
            Some(m) => if m <= i64::MAX as u64 {
                Some(m as i64)
            } else {
                None
            },
            None => None,
        }
    } else {
        match parse_digits_spec(s) {
            Some(m) => if m <= i64::MAX as u64 {
                Some(m as i64)
            } else {
                None
            },
            None => None,
        }
    }
}

/// Parses a signed decimal number, as the standard integer parser reads
/// one: an optional `'+'` or `'-'`, then one or more digits, in range.
pub fn parse_i64(s: &str) -> (r: Option<i64>)
    ensures
        r == parse_i64_spec(s@),
{
    let len = s.unicode_len();
    if len > 0 && s.get_char(0) == '-' {
        match parse_digits(s, 1) {
            Some(m) => {
                if m <= 0x8000000000000000u64 {
                    if m == 0x8000000000000000u64 {
                        Some(i64::MIN)
                    } else {
                        Some(-(m as i64))
                    }
                } else {
                    None
                }
            },
            None => None,
        }
    } else if len > 0 && s.get_char(0) == '+' {
        match parse_digits(s, 1) {
            Some(m) => if m <= i64::MAX as u64 {
                Some(m as i64)
            } else {
                None
            },
            None => None,
        }
    } else {
        proof {
            assert(s@.skip(0) =~= s@);
        }
        match parse_digits(s, 0) {
            Some(m) => if m <= i64::MAX as u64 {
                Some(m as i64)
            } else {
                None
            },
            None => None,
        }
    }
}

proof fn lemma_digit_char_props(d: nat)
    requires
        d < 10,
    ensures
        is_digit(digit_char(d)),
        digit_val(digit_char(d)) == d,
{
}

/// A decimal representation is non-empty and all digits.
pub proof fn lemma_dec_str_digits(n: nat)
    ensures
        dec_str(n).len() >= 1,
        all_digits(dec_str(n)),
    decreases n,
{
    if n < 10 {
        lemma_digit_char_props(n);
    } else {
        lemma_dec_str_digits(n / 10);
        lemma_digit_char_props(n % 10);
        let base = dec_str(n / 10);
        let whole = dec_str(n);
        assert(whole == base.push(digit_char(n % 10)));
        assert forall|i: int| 0 <= i < whole.len() implies is_digit(#[trigger] whole[i]) by {
            if i < base.len() {
                assert(whole[i] == base[i]);
            } else {
                assert(whole[i] == digit_char(n % 10));
            }
        }
    }
}

proof fn lemma_dec_val_dec_str(n: nat)
    ensures
        dec_val(dec_str(n)) == n,
    decreases n,
{
    if n < 10 {
        lemma_digit_char_props(n);
        let s = dec_str(n);
        assert(s.len() == 1);
        assert(s.drop_last() =~= Seq::<char>::empty());
        assert(s.last() == digit_char(n));
        assert(dec_val(Seq::<char>::empty()) == 0);
        assert(dec_val(s) == dec_val(s.drop_last()) * 10 + digit_val(s.last()));
    } else {
        lemma_dec_val_dec_str(n / 10);
        lemma_digit_char_props(n % 10);
        let base = dec_str(n / 10);
        let s = dec_str(n);
        assert(s == base.push(digit_char(n % 10)));
        assert(s.len() > 0);
        assert(s.drop_last() =~= base);
        assert(s.last() == digit_char(n % 10));
        assert(dec_val(s) == dec_val(s.drop_last()) * 10 + digit_val(s.last()));
        assert(n == 10 * (n as int / 10) + n as int % 10) by {
            vstd::arithmetic::div_mod::lemma_fundamental_div_mod(n as int, 10);
        }
    }
}

/// Formatting a value and parsing it back returns the value: the
/// decimal writer and the decimal reader are inverses.
pub proof fn lemma_dec_str_round_trip(n: nat)
    requires
        n <= u64::MAX,
    ensures
        parse_u64_spec(dec_str(n)) == Some(n as u64),
{
    lemma_dec_str_digits(n);
    lemma_dec_val_dec_str(n);
    assert(is_digit(dec_str(n)[0]));
    assert(dec_str(n)[0] != '+');
}

/// Trimming changes nothing on a string without whitespace.
pub proof fn lemma_trim_no_space(s: Seq<char>)
    requires
        forall|i: int| 0 <= i < s.len() ==> !is_space(#[trigger] s[i]),
    ensures
        trim_spec(s) == s,
{
    if s.len() > 0 {
        assert(!is_space(s[0]));
        assert(!is_space(s.last()));
    }
}

/// A string of digits holds no newline, so it is a single line.
pub proof fn lemma_digits_single_line(s: Seq<char>)
    requires
        s.len() > 0,
        all_digits(s),
    ensures
        lines_spec(s) == seq![s],
{
    lemma_find_char(s, '\n');
    let f = find_char(s, '\n');
    if f >= 0 {
        assert(is_digit(s[f]));
    }
}

/// Compares two strings by their contents.
pub fn str_eq(a: &str, b: &str) -> (r: bool)
    ensures
        r == (a@ == b@),
{
    let x = a.to_owned();
    let y = b.to_owned();
    x == y
}

/// Whether `c` is one of the ASCII whitespace characters.
pub open spec fn is_space(c: char) -> bool {
    c == ' ' || c == '\t' || c == '\n' || c == '\r' || c == '\u{b}' || c == '\u{c}'
}

fn is_space_char(c: char) -> (b: bool)
    ensures
        b == is_space(c),
{
    c == ' ' || c == '\t' || c == '\n' || c == '\r' || c == '\u{b}' || c == '\u{c}'
}

/// `s` with its leading whitespace removed.
pub open spec fn trim_start_spec(s: Seq<char>) -> Seq<char>
    decreases s.len(),
{
    if s.len() > 0 && is_space(s[0]) {
        trim_start_spec(s.skip(1))
    } else {
        s
    }
}

/// `s` with its trailing whitespace removed.
pub open spec fn trim_end_spec(s: Seq<char>) -> Seq<char>
    decreases s.len(),
{
    if s.len() > 0 && is_space(s.last()) {
        trim_end_spec(s.drop_last())
    } else {
        s
    }
}

/// `s` with leading and trailing whitespace removed.
pub open spec fn trim_spec(s: Seq<char>) -> Seq<char> {
    trim_end_spec(trim_start_spec(s))
}

/// Removes leading and trailing whitespace.
pub fn trim(s: &str) -> (r: &str)
    ensures
        r@ == trim_spec(s@),
{
    let len = s.unicode_len();
    proof {
        assert(s@.skip(0) =~= s@);
    }
    let mut a: usize = 0;
    while a < len && is_space_char(s.get_char(a))
        invariant
            a <= len,
            len == s@.len(),
            trim_start_spec(s@) == trim_start_spec(s@.skip(a as int)),
        decreases len - a,
    {
        proof {
            assert(s@.skip(a as int).skip(1) =~= s@.skip(a + 1));
        }
        a = a + 1;
    }
    proof {
        assert(trim_start_spec(s@.skip(a as int)) == s@.skip(a as int));
    }
    let mut b: usize = len;
    while b > a && is_space_char(s.get_char(b - 1))
        invariant
            a <= b <= len,
            len == s@.len(),
            trim_start_spec(s@) == s@.skip(a as int),
            trim_end_spec(s@.skip(a as int)) == trim_end_spec(s@.subrange(a as int, b as int)),
        decreases b,
    {
        proof {
            assert(s@.subrange(a as int, b as int).drop_last() =~= s@.subrange(
                a as int,
                b - 1,
            ));
            assert(s@.subrange(a as int, b as int).last() == s@[b - 1]);
        }
        b = b - 1;
    }
    proof {
        if b == a {
            assert(s@.subrange(a as int, b as int) =~= Seq::<char>::empty());
        } else {
            assert(s@.subrange(a as int, b as int).last() == s@[b - 1]);
        }
        assert(trim_end_spec(s@.subrange(a as int, b as int)) == s@.subrange(
            a as int,
            b as int,
        ));
    }
    s.substring_char(a, b)
}

/// The index of the first occurrence of `c` in `s`, or `-1`.
pub open spec fn find_char(s: Seq<char>, c: char) -> int
    decreases s.len(),
{
    if s.len() == 0 {
        -1
    } else if s[0] == c {
        0
    } else {
        let r = find_char(s.skip(1), c);
        if r < 0 {
            -1
        } else {
            r + 1
        }
    }
}

/// `find_char` names the first occurrence: nothing before it matches,
/// and a result of `-1` means nothing matches at all.
proof fn lemma_find_char(s: Seq<char>, c: char)
    ensures
        find_char(s, c) >= 0 ==> {
            &&& find_char(s, c) < s.len()
            &&& s[find_char(s, c)] == c
            &&& forall|k: int| 0 <= k < find_char(s, c) ==> s[k] != c
        },
        find_char(s, c) < 0 ==> forall|k: int| 0 <= k < s.len() ==> s[k] != c,
    decreases s.len(),
{
    if s.len() > 0 && s[0] != c {
        lemma_find_char(s.skip(1), c);
        assert(forall|k: int| 1 <= k < s.len() ==> s[k] == s.skip(1)[k - 1]);
    }
}

/// A line with one trailing carriage return removed.
pub open spec fn strip_cr(l: Seq<char>) -> Seq<char> {
    if l.len() > 0 && l.last() == '\r' {
        l.drop_last()
    } else {
        l
    }
}

/// The lines of a non-empty text: split at every `'\n'`, a carriage
/// return before the newline dropped, and no empty final line for a
/// text that ends with a newline.
pub open spec fn lines_rec(s: Seq<char>) -> Seq<Seq<char>>
    decreases s.len(),
{
    let f = find_char(s, '\n');
    if f < 0 || f >= s.len() {
        seq![s]
    } else if f + 1 == s.len() {
        seq![strip_cr(s.take(f))]
    } else {
        seq![strip_cr(s.take(f))] + lines_rec(s.skip(f + 1))
    }
}

/// The lines of a text, as the standard `lines` iterator yields them.
pub open spec fn lines_spec(s: Seq<char>) -> Seq<Seq<char>> {
    if s.len() == 0 {
        Seq::empty()
    } else {
        lines_rec(s)
    }
}

fn find_newline(s: &str) -> (r: Option<usize>)
    ensures
        match r {
            Some(i) => i == find_char(s@, '\n') && i < s@.len(),
            None => find_char(s@, '\n') < 0,
        },
{
    proof {
        lemma_find_char(s@, '\n');
    }
    let len = s.unicode_len();
    let mut j: usize = 0;
    while j < len
        invariant
            j <= len,
            len == s@.len(),
            forall|k: int| 0 <= k < j ==> s@[k] != '\n',
        decreases len - j,
    {
        if s.get_char(j) == '\n' {
            proof {
                lemma_find_char(s@, '\n');
                let f = find_char(s@, '\n');
                if f < 0 {
                    assert(s@[j as int] != '\n');
                } else if f < j {
                    assert(s@[f] != '\n');
                } else if f > j {
                    assert(s@[j as int] != '\n');
                }
            }
            return Some(j);
        }
        j = j + 1;
    }
    None
}

fn strip_cr_exec<'a>(l: &'a str) -> (r: &'a str)
    ensures
        r@ == strip_cr(l@),
{
    let len = l.unicode_len();
    if len > 0 && l.get_char(len - 1) == '\r' {
        proof {
            assert(l@.subrange(0, l@.len() - 1) =~= l@.drop_last());
        }
        l.substring_char(0, len - 1)
    } else {
        proof {
            assert(l@.subrange(0, l@.len() as int) =~= l@);
        }
        l
    }
}

fn lines_into(s: &str, out: &mut Vec<String>)
    requires
        s@.len() > 0,
    ensures
        final(out)@.len() == old(out)@.len() + lines_rec(s@).len(),
        forall|i: int|
            0 <= i < final(out)@.len() ==> final(out)@[i]@ == (old(out)@.map_values(|l: String| l@)
                + lines_rec(s@))[i],
    decreases s@.len(),
{
    let len = s.unicode_len();
    match find_newline(s) {
        None => {
            out.push(String::from_str(s));
        },
        Some(f) => {
            let head = s.substring_char(0, f);
            proof {
                assert(head@ =~= s@.take(f as int));
            }
            out.push(String::from_str(strip_cr_exec(head)));
            if f + 1 < len {
                let rest = s.substring_char(f + 1, len);
                proof {
                    assert(rest@ =~= s@.skip(f + 1));
                }
                lines_into(rest, out);
            }
        },
    }
}

/// Splits a text into its lines, as the standard `lines` iterator does.
pub fn split_lines(s: &str) -> (r: Vec<String>)
    ensures
        r@.len() == lines_spec(s@).len(),
        forall|i: int| 0 <= i < r@.len() ==> r@[i]@ == lines_spec(s@)[i],
{
    let mut out: Vec<String> = Vec::new();
    if s.unicode_len() > 0 {
        lines_into(s, &mut out);
    }
    out
}

/// What `split_once` returns: the text on either side of the first
/// occurrence of `c`, when there is one.
pub open spec fn split_once_spec(s: Seq<char>, c: char) -> Option<(Seq<char>, Seq<char>)> {
    let f = find_char(s, c);
    if f < 0 {
        None
    } else {
        Some((s.take(f), s.skip(f + 1)))
    }
}

/// Splits at the first occurrence of `c`, as the standard `split_once`.
pub fn split_once<'a>(s: &'a str, c: char) -> (r: Option<(&'a str, &'a str)>)
    ensures
        match r {
            Some(p) => split_once_spec(s@, c) matches Some(q) && p.0@ == q.0 && p.1@ == q.1,
            None => split_once_spec(s@, c) is None,
        },
{
    proof {
        lemma_find_char(s@, c);
    }
    let len = s.unicode_len();
    let mut j: usize = 0;
    while j < len
        invariant
            j <= len,
            len == s@.len(),
            forall|k: int| 0 <= k < j ==> s@[k] != c,
        decreases len - j,
    {
        if s.get_char(j) == c {
            let head = s.substring_char(0, j);
            let tail = s.substring_char(j + 1, len);
            proof {
                lemma_find_char(s@, c);
                let f = find_char(s@, c);
                if f < 0 {
                    assert(s@[j as int] != c);
                } else if f < j {
                    assert(s@[f] != c);
                } else if f > j {
                    assert(s@[j as int] != c);
                }
                assert(head@ =~= s@.take(j as int));
                assert(tail@ =~= s@.skip(j + 1));
            }
            return Some((head, tail));
        }
        j = j + 1;
    }
    None
}

/// The whitespace-separated tokens of `s`, accumulated left to right:
/// `cur` is the token being read, `acc` the tokens already read.
pub open spec fn tokens_acc(
    s: Seq<char>,
    i: int,
    cur: Seq<char>,
    acc: Seq<Seq<char>>,
) -> Seq<Seq<char>>
    decreases s.len() - i,
{
    if i < 0 || i >= s.len() {
        if cur.len() > 0 {
            acc.push(cur)
        } else {
            acc
        }
    } else if is_space(s[i]) {
        if cur.len() > 0 {
            tokens_acc(s, i + 1, Seq::empty(), acc.push(cur))
        } else {
            tokens_acc(s, i + 1, cur, acc)
        }
    } else {
        tokens_acc(s, i + 1, cur.push(s[i]), acc)
    }
}

/// The whitespace-separated tokens of `s`.
pub open spec fn tokens_spec(s: Seq<char>) -> Seq<Seq<char>> {
    tokens_acc(s, 0, Seq::empty(), Seq::empty())
}

/// Splits into whitespace-separated tokens, as the standard
/// `split_whitespace` does over ASCII whitespace.
pub fn split_tokens(s: &str) -> (r: Vec<String>)
    ensures
        r@.len() == tokens_spec(s@).len(),
        forall|i: int| 0 <= i < r@.len() ==> r@[i]@ == tokens_spec(s@)[i],
{
    let len = s.unicode_len();
    let mut out: Vec<String> = Vec::new();
    proof {
        assert(out@.map_values(|t: String| t@) =~= Seq::<Seq<char>>::empty());
    }
    let mut start: usize = 0;
    let mut in_tok = false;
    let mut i: usize = 0;
    while i < len
        invariant
            i <= len,
            len == s@.len(),
            in_tok ==> start < i,
            tokens_spec(s@) == tokens_acc(
                s@,
                i as int,
                if in_tok {
                    s@.subrange(start as int, i as int)
                } else {
                    Seq::empty()
                },
                out@.map_values(|t: String| t@),
            ),
        decreases len - i,
    {
        let c = s.get_char(i);
        if is_space_char(c) {
            if in_tok {
                let tok = s.substring_char(start, i);
                let ghost prev = out@.map_values(|t: String| t@);
                let ghost curv = s@.subrange(start as int, i as int);
                out.push(String::from_str(tok));
                in_tok = false;
                proof {
                    assert(curv.len() > 0);
                    assert(out@.map_values(|t: String| t@) =~= prev.push(curv));
                }
            }
        } else {
            if !in_tok {
                start = i;
                in_tok = true;
                proof {
                    assert(s@.subrange(i as int, i + 1) =~= Seq::<char>::empty().push(s@[i as int]));
                }
            } else {
                proof {
                    assert(s@.subrange(start as int, i + 1) =~= s@.subrange(
                        start as int,
                        i as int,
                    ).push(s@[i as int]));
                }
            }
        }
        i = i + 1;
    }
    if in_tok {
        let tok = s.substring_char(start, len);
        let ghost prev = out@.map_values(|t: String| t@);
        let ghost curv = s@.subrange(start as int, len as int);
        out.push(String::from_str(tok));
        proof {
            assert(curv.len() > 0);
            assert(out@.map_values(|t: String| t@) =~= prev.push(curv));
        }
    }
    out
}

} // verus!
