//! Characters and decimal text.

use vstd::prelude::*;

verus! {

/// Trusts `String::push` of std: the character is appended.
pub assume_specification[ String::push ](s: &mut String, c: char)
    ensures
        final(s)@ == old(s)@.push(c),
;

/// Trusts `==` of std on strings: two strings are equal when they hold the same characters.
pub assume_specification[ <str as PartialEq>::eq ](s: &str, other: &str) -> (same: bool)
    ensures
        same == (s@ == other@),
;

/// Trusts `str::trim` of std: white space at both ends is left out.
pub assume_specification[ str::trim ](s: &str) -> (trimmed: &str)
    ensures
        trimmed@ == trim_end(trim_start(s@)),
;

/// Whether `c` has the Unicode property `White_Space`.
pub open spec fn is_white_space(c: char) -> bool {
    ||| '\u{9}' <= c <= '\u{d}'
    ||| c == '\u{20}'
    ||| c == '\u{85}'
    ||| c == '\u{a0}'
    ||| c == '\u{1680}'
    ||| '\u{2000}' <= c <= '\u{200a}'
    ||| c == '\u{2028}'
    ||| c == '\u{2029}'
    ||| c == '\u{202f}'
    ||| c == '\u{205f}'
    ||| c == '\u{3000}'
}

/// `s` without the white space that it starts with.
pub open spec fn trim_start(s: Seq<char>) -> Seq<char>
    decreases s.len(),
{
    if s.len() > 0 && is_white_space(s[0]) {
        trim_start(s.drop_first())
    } else {
        s
    }
}

/// `s` without the white space that it ends with.
pub open spec fn trim_end(s: Seq<char>) -> Seq<char>
    decreases s.len(),
{
    if s.len() > 0 && is_white_space(s.last()) {
        trim_end(s.drop_last())
    } else {
        s
    }
}

/// Whether `a` and `b` hold the same characters.
pub fn same_text(a: &str, b: &str) -> (same: bool)
    ensures
        same == (a@ == b@),
{
    *a == *b
}

/// The characters of `s`.
pub fn chars_of(s: &str) -> (chars: Vec<char>)
    ensures
        chars@ == s@,
{
    let mut chars: Vec<char> = Vec::new();
    for c in it: s.chars()
        invariant
            chars@ == it.seq().take(it.index() as int),
            it.seq() == s@,
    {
        chars.push(c);
    }
    chars
}

/// The string that starts with `a` and goes on with `b`.
pub fn joined(a: &str, b: &str) -> (s: String)
    ensures
        s@ == a@ + b@,
{
    let mut s = a.to_string();
    s.append(b);
    s
}

/// The first `count` characters of `s`, or all where it has fewer.
pub fn first_chars(s: &str, count: usize) -> (head: String)
    ensures
        head@ == if s@.len() <= count { s@ } else { s@.take(count as int) },
{
    let chars = chars_of(s);
    let end: usize = if chars.len() <= count { chars.len() } else { count };
    let mut head = String::new();
    for i in 0..end
        invariant
            end <= chars.len(),
            head@ == chars@.take(i as int),
    {
        head.push(chars[i]);
    }
    head
}

/// The decimal digit `d`.
pub open spec fn digit(d: int) -> char {
    DIGITS@[d]
}

/// The decimal digits.
pub const DIGITS: [char; 10] = ['0', '1', '2', '3', '4', '5', '6', '7', '8', '9'];

/// `n` in decimal, without leading zeros.
pub open spec fn decimal(n: nat) -> Seq<char>
    decreases n,
{
    if n < 10 {
        seq![digit(n as int)]
    } else {
        decimal(n / 10).push(digit((n % 10) as int))
    }
}

/// `n` in decimal, with a minus sign where it is negative.
pub open spec fn signed_decimal(n: int) -> Seq<char> {
    if n < 0 {
        seq!['-'] + decimal((-n) as nat)
    } else {
        decimal(n as nat)
    }
}

fn push_decimal(s: &mut String, n: u64)
    ensures
        final(s)@ == old(s)@ + decimal(n as nat),
    decreases n,
{
    if n >= 10 {
        push_decimal(s, n / 10);
    }
    s.push(DIGITS[(n % 10) as usize]);
}

/// `n` in decimal.
pub fn decimal_text(n: u64) -> (s: String)
    ensures
        s@ == decimal(n as nat),
{
    let mut s = String::new();
    push_decimal(&mut s, n);
    s
}

/// `n` in decimal, with its sign.
pub fn signed_text(n: i64) -> (s: String)
    ensures
        s@ == signed_decimal(n as int),
{
    let mut s = String::new();
    if n < 0 {
        s.push('-');
        push_decimal(&mut s, (-(n as i128)) as u64);
    } else {
        push_decimal(&mut s, n as u64);
    }
    s
}

/// Whether `c` is a decimal digit.
pub open spec fn is_digit(c: char) -> bool {
    '0' <= c <= '9'
}

/// The number that the digits `s` write.
pub open spec fn number_of(s: Seq<char>) -> nat
    decreases s.len(),
{
    if s.len() == 0 {
        0
    } else {
        (number_of(s.drop_last()) * 10 + (s.last() as int - '0' as int)) as nat
    }
}

/// The number that `s` writes in decimal digits, if it is nothing but digits and at most `max`.
pub open spec fn read_digits(s: Seq<char>, max: int) -> Option<nat> {
    if s.len() > 0 && (forall|i: int| 0 <= i < s.len() ==> is_digit(#[trigger] s[i]))
        && number_of(s) <= max {
        Some(number_of(s))
    } else {
        None
    }
}

/// The number that `s` writes: digits, after a plus sign or none, that fit in 16 bits.
pub open spec fn read_u16(s: Seq<char>) -> Option<u16> {
    let body = if s.len() > 0 && s[0] == '+' { s.drop_first() } else { s };
    match read_digits(body, u16::MAX as int) {
        Some(n) => Some(n as u16),
        None => None,
    }
}

/// The number that `s` writes: digits, after a sign or none, that fit in 64 bits with a sign.
pub open spec fn read_i64(s: Seq<char>) -> Option<i64> {
    if s.len() > 0 && s[0] == '-' {
        match read_digits(s.drop_first(), i64::MAX + 1) {
            Some(n) => Some((-n) as i64),
            None => None,
        }
    } else {
        let body = if s.len() > 0 && s[0] == '+' { s.drop_first() } else { s };
        match read_digits(body, i64::MAX as int) {
            Some(n) => Some(n as i64),
            None => None,
        }
    }
}

proof fn lemma_number_of_prefix(s: Seq<char>, k: int)
    requires
        0 <= k <= s.len(),
        forall|i: int| 0 <= i < s.len() ==> is_digit(#[trigger] s[i]),
    ensures
        number_of(s.take(k)) <= number_of(s),
    decreases s.len(),
{
    if k == s.len() {
        assert(s.take(k) =~= s);
    } else {
        assert(s.drop_last().take(k) =~= s.take(k));
        assert forall|i: int| 0 <= i < s.len() - 1 implies is_digit(#[trigger] s.drop_last()[i]) by {
            assert(s.drop_last()[i] == s[i]);
        }
        lemma_number_of_prefix(s.drop_last(), k);
        assert(is_digit(s[s.len() - 1]));
    }
}

/// Reads the digits from `from` on.
fn digits_from(chars: &Vec<char>, from: usize, max: u64) -> (number: Option<u64>)
    requires
        from <= chars@.len(),
    ensures
        match read_digits(chars@.skip(from as int), max as int) {
            Some(n) => number == Some(n as u64),
            None => number is None,
        },
{
    let ghost s = chars@.skip(from as int);
    if from == chars.len() {
        return None;
    }
    let mut number: u64 = 0;
    let mut i: usize = from;
    while i < chars.len()
        invariant
            from <= i <= chars@.len(),
            s == chars@.skip(from as int),
            forall|j: int| 0 <= j < i - from ==> is_digit(#[trigger] s[j]),
            number == number_of(s.take(i - from)),
            number <= max,
        decreases chars@.len() - i,
    {
        let c = chars[i];
        assert(c == s[i - from]);
        if !('0' <= c && c <= '9') {
            assert(!is_digit(s[i - from]));
            return None;
        }
        let next: u128 = (number as u128) * 10 + ((c as u32) - ('0' as u32)) as u128;
        assert(s.take(i - from + 1).drop_last() =~= s.take(i - from));
        assert(next == number_of(s.take(i - from + 1)));
        if next > max as u128 {
            proof {
                if forall|j: int| 0 <= j < s.len() ==> is_digit(#[trigger] s[j]) {
                    lemma_number_of_prefix(s, i - from + 1);
                }
            }
            return None;
        }
        number = next as u64;
        i = i + 1;
    }
    assert(s.take(i - from) =~= s);
    Some(number)
}

/// Reads a port number.
pub fn parse_u16(s: &str) -> (number: Option<u16>)
    ensures
        number == read_u16(s@),
{
    let chars = chars_of(s);
    let from: usize = if chars.len() > 0 && chars[0] == '+' { 1 } else { 0 };
    assert(chars@.skip(0) =~= chars@);
    assert(chars@.len() > 0 ==> chars@.skip(1) =~= chars@.drop_first());
    match digits_from(&chars, from, 65535) {
        Some(n) => Some(n as u16),
        None => None,
    }
}

/// Reads a signed integer.
pub fn parse_i64(s: &str) -> (number: Option<i64>)
    ensures
        number == read_i64(s@),
{
    let chars = chars_of(s);
    assert(chars@.skip(0) =~= chars@);
    assert(chars@.len() > 0 ==> chars@.skip(1) =~= chars@.drop_first());
    if chars.len() > 0 && chars[0] == '-' {
        match digits_from(&chars, 1, 9223372036854775808) {
            Some(n) => Some((-(n as i128)) as i64),
            None => None,
        }
    } else {
        let from: usize = if chars.len() > 0 && chars[0] == '+' { 1 } else { 0 };
        match digits_from(&chars, from, 9223372036854775807) {
            Some(n) => Some(n as i64),
            None => None,
        }
    }
}

/// `c` in lower case where it is an ASCII letter.
pub open spec fn lower_char(c: char) -> char {
    if 'A' <= c <= 'Z' {
        (c as int + 32) as char
    } else {
        c
    }
}

/// `s` with its ASCII letters in lower case.
pub open spec fn lower(s: Seq<char>) -> Seq<char> {
    s.map_values(|c: char| lower_char(c))
}

/// `s` with its ASCII letters in lower case.
pub fn lower_text(s: &str) -> (low: String)
    ensures
        low@ == lower(s@),
{
    let chars = chars_of(s);
    let mut low = String::new();
    for i in 0..chars.len()
        invariant
            low@ == lower(chars@.take(i as int)),
    {
        let c = chars[i];
        let l = if 'A' <= c && c <= 'Z' { ((c as u32 as u8) + 32) as char } else { c };
        low.push(l);
        assert(lower(chars@.take(i + 1)) =~= lower(chars@.take(i as int)).push(lower_char(c)));
    }
    assert(chars@.take(chars@.len() as int) =~= chars@);
    low
}

/// Whether `part` stands somewhere in `s`.
pub open spec fn has_part(s: Seq<char>, part: Seq<char>) -> bool {
    exists|at: int|
        0 <= at && at + part.len() <= s.len() && #[trigger] s.subrange(at, at + part.len()) == part
}

/// Whether `part` stands somewhere in `s`.
pub fn contains_text(s: &str, part: &str) -> (found: bool)
    ensures
        found == has_part(s@, part@),
{
    let chars = chars_of(s);
    let wanted = chars_of(part);
    let total: usize = chars.len();
    if wanted.len() > total {
        return false;
    }
    let mut at: usize = 0;
    while at <= total - wanted.len()
        invariant
            chars@ == s@,
            wanted@ == part@,
            total == chars@.len(),
            wanted@.len() <= chars@.len(),
            at <= chars@.len() - wanted@.len() + 1,
            forall|k: int| 0 <= k < at ==> #[trigger] chars@.subrange(k, k + wanted@.len()) != wanted@,
        decreases chars@.len() + 1 - at,
    {
        let mut i: usize = 0;
        while i < wanted.len() && chars[at + i] == wanted[i]
            invariant
                total == chars@.len(),
                at + wanted@.len() <= total,
                i <= wanted@.len(),
                forall|j: int| 0 <= j < i ==> chars@[at + j] == #[trigger] wanted@[j],
            decreases wanted@.len() - i,
        {
            i = i + 1;
        }
        let ghost here = chars@.subrange(at as int, at + wanted@.len());
        if i == wanted.len() {
            assert(here =~= wanted@);
            return true;
        }
        assert(here[i as int] != wanted@[i as int]);
        at = at + 1;
    }
    false
}

/// Whether `a` comes before `b` in the order of their characters' code points.
pub open spec fn text_before(a: Seq<char>, b: Seq<char>) -> bool
    decreases a.len(),
{
    if b.len() == 0 {
        false
    } else if a.len() == 0 {
        true
    } else if a[0] == b[0] {
        text_before(a.drop_first(), b.drop_first())
    } else {
        a[0] < b[0]
    }
}

/// Whether `a` comes before `b`.
pub fn comes_before(a: &str, b: &str) -> (before: bool)
    ensures
        before == text_before(a@, b@),
{
    let x = chars_of(a);
    let y = chars_of(b);
    let mut i: usize = 0;
    assert(x@.skip(0) =~= x@ && y@.skip(0) =~= y@);
    while i < x.len() && i < y.len()
        invariant
            i <= x@.len(),
            i <= y@.len(),
            text_before(a@, b@) == text_before(x@.skip(i as int), y@.skip(i as int)),
        decreases x@.len() - i,
    {
        assert(x@.skip(i as int).drop_first() =~= x@.skip(i + 1));
        assert(y@.skip(i as int).drop_first() =~= y@.skip(i + 1));
        if x[i] != y[i] {
            return x[i] < y[i];
        }
        i = i + 1;
    }
    i < y.len()
}

} // verus!
