//! Small text tools the rest of the crate is built on: decimal numerals,
//! ASCII case folding and splitting at a separator character.

use vstd::prelude::*;
use vstd::string::*;

verus! {

/// `String::push` appends one character to the text.
pub assume_specification[ String::push ](s: &mut String, c: char)
    ensures
        final(s)@ == old(s)@.push(c),
;

/// The numeral character of a single decimal digit.
pub open spec fn digit_char(d: nat) -> char {
    if d == 0 {
        '0'
    } else if d == 1 {
        '1'
    } else if d == 2 {
        '2'
    } else if d == 3 {
        '3'
    } else if d == 4 {
        '4'
    } else if d == 5 {
        '5'
    } else if d == 6 {
        '6'
    } else if d == 7 {
        '7'
    } else if d == 8 {
        '8'
    } else {
        '9'
    }
}

/// Whether `c` is one of the ten decimal digits.
pub open spec fn is_digit(c: char) -> bool {
    '0' <= c && c <= '9'
}

/// The value of a decimal digit character.
pub open spec fn digit_value(c: char) -> nat {
    (c as nat - '0' as nat) as nat
}

/// The decimal numeral of `n`, without sign or leading zeros.
pub open spec fn decimal(n: nat) -> Seq<char>
    decreases n,
{
    if n < 10 {
        seq![digit_char(n)]
    } else {
        decimal(n / 10).push(digit_char(n % 10))
    }
}

fn digit_to_char(d: u64) -> (c: char)
    requires
        d < 10,
    ensures
        c == digit_char(d as nat),
{
    if d == 0 {
        '0'
    } else if d == 1 {
        '1'
    } else if d == 2 {
        '2'
    } else if d == 3 {
        '3'
    } else if d == 4 {
        '4'
    } else if d == 5 {
        '5'
    } else if d == 6 {
        '6'
    } else if d == 7 {
        '7'
    } else if d == 8 {
        '8'
    } else {
        '9'
    }
}

/// Writes `n` as a decimal numeral.
pub fn decimal_string(n: u64) -> (r: String)
    ensures
        r@ == decimal(n as nat),
    decreases n,
{
    if n < 10 {
        let mut s = String::new();
        s.push(digit_to_char(n));
        s
    } else {
        let mut s = decimal_string(n / 10);
        s.push(digit_to_char(n % 10));
        s
    }
}

/// ASCII lower-case form of one character; other characters are kept.
pub open spec fn ascii_lower(c: char) -> char {
    if 'A' <= c && c <= 'Z' {
        ((c as u8 + 32) as u8) as char
    } else {
        c
    }
}

fn lower_char(c: char) -> (r: char)
    ensures
        r == ascii_lower(c),
{
    if 'A' <= c && c <= 'Z' {
        ((c as u8) + 32) as char
    } else {
        c
    }
}

/// A text with every ASCII capital replaced by its small letter.
pub open spec fn ascii_fold(s: Seq<char>) -> Seq<char> {
    Seq::new(s.len(), |i: int| ascii_lower(s[i]))
}

/// Compares two texts, taking an ASCII capital and its small letter as equal.
pub fn eq_ignore_ascii_case(a: &str, b: &str) -> (r: bool)
    ensures
        r == (ascii_fold(a@) == ascii_fold(b@)),
{
    let n = a.unicode_len();
    if b.unicode_len() != n {
        assert(ascii_fold(a@).len() != ascii_fold(b@).len());
        return false;
    }
    let mut i: usize = 0;
    while i < n
        invariant
            i <= n,
            n == a@.len(),
            n == b@.len(),
            forall|k: int| 0 <= k < i ==> ascii_lower(a@[k]) == ascii_lower(b@[k]),
        decreases n - i,
    {
        if lower_char(a.get_char(i)) != lower_char(b.get_char(i)) {
            assert(ascii_fold(a@)[i as int] != ascii_fold(b@)[i as int]);
            return false;
        }
        i = i + 1;
    }
    assert(ascii_fold(a@) =~= ascii_fold(b@));
    true
}

/// Whether two texts hold the same characters.
pub fn same_text(a: &str, b: &str) -> (r: bool)
    ensures
        r == (a@ == b@),
{
    let n = a.unicode_len();
    if b.unicode_len() != n {
        assert(a@.len() != b@.len());
        return false;
    }
    let mut i: usize = 0;
    while i < n
        invariant
            i <= n,
            n == a@.len(),
            n == b@.len(),
            forall|k: int| 0 <= k < i ==> a@[k] == b@[k],
        decreases n - i,
    {
        if a.get_char(i) != b.get_char(i) {
            return false;
        }
        i = i + 1;
    }
    assert(a@ =~= b@);
    true
}

/// The position of the `n`-th occurrence of `c` in `s` at or after `from`
/// (occurrences are counted from one), if there are that many.
pub open spec fn nth_from(s: Seq<char>, c: char, n: nat, from: int) -> Option<int>
    decreases s.len() - from,
{
    if from < 0 || from >= s.len() || n == 0 {
        None
    } else if s[from] == c {
        if n == 1 {
            Some(from)
        } else {
            nth_from(s, c, (n - 1) as nat, from + 1)
        }
    } else {
        nth_from(s, c, n, from + 1)
    }
}

/// The position of the `n`-th occurrence of `c` in `s`.
pub open spec fn nth_index(s: Seq<char>, c: char, n: nat) -> Option<int> {
    nth_from(s, c, n, 0)
}

/// Finds the `n`-th occurrence of `c` in `s`, counting occurrences from one.
pub fn find_nth(s: &str, c: char, n: usize) -> (r: Option<usize>)
    ensures
        r is Some == nth_index(s@, c, n as nat) is Some,
        r is Some ==> r->0 as int == nth_index(s@, c, n as nat)->0 && r->0 < s@.len() && r->0
            < usize::MAX && s@[r->0 as int] == c,
{
    let len = s.unicode_len();
    if n == 0 {
        return None;
    }
    let mut left: usize = n;
    let mut i: usize = 0;
    while i < len
        invariant
            i <= len,
            len == s@.len(),
            left >= 1,
            nth_index(s@, c, n as nat) == nth_from(s@, c, left as nat, i as int),
        decreases len - i,
    {
        if s.get_char(i) == c {
            if left == 1 {
                return Some(i);
            }
            left = left - 1;
        }
        i = i + 1;
    }
    None
}

/// The value of a numeral made of decimal digits only.
pub open spec fn digits_value(s: Seq<char>) -> nat
    decreases s.len(),
{
    if s.len() == 0 {
        0
    } else {
        digits_value(s.drop_last()) * 10 + digit_value(s.last())
    }
}

/// Whether every character of `s` is a decimal digit.
pub open spec fn all_digits(s: Seq<char>) -> bool {
    forall|i: int| 0 <= i < s.len() ==> is_digit(#[trigger] s[i])
}

/// A numeral without the `+` that may lead it.
pub open spec fn numeral_digits(s: Seq<char>) -> Seq<char> {
    if s.len() > 0 && s[0] == '+' {
        s.subrange(1, s.len() as int)
    } else {
        s
    }
}

/// The number that an unsigned numeral stands for, where it is at most
/// `limit`: an optional `+`, then one digit or more.
pub open spec fn unsigned_value(s: Seq<char>, limit: nat) -> Option<nat> {
    let digits = numeral_digits(s);
    if digits.len() > 0 && all_digits(digits) && digits_value(digits) <= limit {
        Some(digits_value(digits))
    } else {
        None
    }
}

proof fn lemma_digits_value_grows(s: Seq<char>, k: int)
    requires
        0 <= k <= s.len(),
    ensures
        digits_value(s.subrange(0, k)) <= digits_value(s),
    decreases s.len() - k,
{
    if k == s.len() {
        assert(s.subrange(0, k) =~= s);
    } else {
        lemma_digits_value_grows(s, k + 1);
        assert(s.subrange(0, k + 1).drop_last() =~= s.subrange(0, k));
    }
}

/// Reads an unsigned decimal numeral that stands for at most `limit`.
pub fn parse_unsigned(s: &str, limit: u64) -> (r: Option<u64>)
    ensures
        r is Some == unsigned_value(s@, limit as nat) is Some,
        r is Some ==> r->0 as nat == unsigned_value(s@, limit as nat)->0,
{
    let len = s.unicode_len();
    let start: usize = if len > 0 && s.get_char(0) == '+' {
        1
    } else {
        0
    };
    if start == len {
        return None;
    }
    let ghost digits = numeral_digits(s@);
    let mut value: u64 = 0;
    let mut i: usize = start;
    while i < len
        invariant
            start <= i <= len,
            len == s@.len(),
            digits == numeral_digits(s@),
            digits.len() == len - start,
            forall|k: int| 0 <= k < len - start ==> digits[k] == s@[start + k],
            value <= limit,
            value as nat == digits_value(digits.subrange(0, i - start)),
            forall|k: int| 0 <= k < i - start ==> is_digit(#[trigger] digits[k]),
        decreases len - i,
    {
        let c = s.get_char(i);
        assert(c == digits[i - start]);
        if !('0' <= c && c <= '9') {
            assert(!is_digit(digits[i - start]));
            return None;
        }
        let d: u64 = (c as u64) - ('0' as u64);
        proof {
            assert(digits.subrange(0, i + 1 - start).drop_last() =~= digits.subrange(
                0,
                i - start,
            ));
            lemma_digits_value_grows(digits, i + 1 - start);
        }
        if value > (u64::MAX - d) / 10 {
            assert(digits_value(digits.subrange(0, i + 1 - start)) > u64::MAX);
            return None;
        }
        let next: u64 = value * 10 + d;
        if next > limit {
            return None;
        }
        value = next;
        i = i + 1;
    }
    assert(digits.subrange(0, len - start) =~= digits);
    Some(value)
}

/// The number that a numeral of digits alone stands for, where it fits in
/// 64 bits.
pub open spec fn digits_number(s: Seq<char>) -> Option<u64> {
    if s.len() > 0 && all_digits(s) && digits_value(s) <= u64::MAX {
        Some(digits_value(s) as u64)
    } else {
        None
    }
}

/// Reads a numeral of digits alone that fits in 64 bits.
pub fn parse_digits(s: &str) -> (r: Option<u64>)
    ensures
        r == digits_number(s@),
{
    let len = s.unicode_len();
    if len == 0 {
        return None;
    }
    let mut value: u64 = 0;
    let mut i: usize = 0;
    while i < len
        invariant
            i <= len,
            len == s@.len(),
            value as nat == digits_value(s@.subrange(0, i as int)),
            forall|k: int| 0 <= k < i ==> is_digit(#[trigger] s@[k]),
        decreases len - i,
    {
        let c = s.get_char(i);
        if !('0' <= c && c <= '9') {
            assert(!is_digit(s@[i as int]));
            return None;
        }
        let d: u64 = (c as u64) - ('0' as u64);
        proof {
            assert(s@.subrange(0, i + 1).drop_last() =~= s@.subrange(0, i as int));
            lemma_digits_value_grows(s@, i + 1);
        }
        if value > (u64::MAX - d) / 10 {
            assert(digits_value(s@.subrange(0, i + 1)) > u64::MAX);
            return None;
        }
        value = value * 10 + d;
        i = i + 1;
    }
    assert(s@.subrange(0, len as int) =~= s@);
    Some(value)
}

/// The texts put one after another, with `separator` between each two.
pub open spec fn joined(parts: Seq<Seq<char>>, separator: Seq<char>) -> Seq<char>
    decreases parts.len(),
{
    if parts.len() == 0 {
        seq![]
    } else if parts.len() == 1 {
        parts[0]
    } else {
        joined(parts.drop_last(), separator) + separator + parts.last()
    }
}

/// Puts the texts one after another, with `separator` between each two.
pub fn join(parts: &Vec<String>, separator: &str) -> (r: String)
    ensures
        r@ == joined(parts.deep_view(), separator@),
{
    let mut text = String::new();
    let mut i: usize = 0;
    while i < parts.len()
        invariant
            i <= parts.len(),
            text@ == joined(parts.deep_view().subrange(0, i as int), separator@),
        decreases parts.len() - i,
    {
        let ghost upto = parts.deep_view().subrange(0, i + 1);
        assert(upto.drop_last() =~= parts.deep_view().subrange(0, i as int));
        assert(upto.last() == parts@[i as int]@);
        if i > 0 {
            text.append(separator);
        }
        text.append(parts[i].as_str());
        assert(text@ =~= joined(upto, separator@));
        i = i + 1;
    }
    assert(parts.deep_view().subrange(0, parts.len() as int) =~= parts.deep_view());
    text
}

} // verus!
