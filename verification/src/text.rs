//! Character-level helpers for the strings that name topics, cache keys and
//! upstream requests.

use vstd::prelude::*;
use vstd::utf8::{decode_utf8, encode_utf8, encode_utf8_decode_utf8, is_ascii_chars};

verus! {

/// `String::push`: appends one character to the end of the string.
#[verifier::external_body]
pub(crate) fn push_char(s: &mut String, c: char)
    ensures
        final(s)@ == old(s)@.push(c),
{
    s.push(c)
}

/// The characters of `s`, in order.
pub fn chars_of(s: &str) -> (out: Vec<char>)
    ensures
        out@ == s@,
{
    let mut out: Vec<char> = Vec::new();
    for c in it: s.chars()
        invariant
            out@ == it.seq().take(it.index()),
    {
        out.push(c);
    }
    out
}

/// The string made of `chars[from..to]`.
pub fn string_of_range(chars: &Vec<char>, from: usize, to: usize) -> (out: String)
    requires
        from <= to <= chars.len(),
    ensures
        out@ == chars@.subrange(from as int, to as int),
{
    let mut out = String::new();
    let mut i: usize = from;
    while i < to
        invariant
            from <= i <= to <= chars.len(),
            out@ == chars@.subrange(from as int, i as int),
        decreases to - i,
    {
        push_char(&mut out, chars[i]);
        i = i + 1;
    }
    out
}

/// The string made of the characters of `chars`, in order.
pub fn string_of(chars: &Vec<char>) -> (out: String)
    ensures
        out@ == chars@,
{
    string_of_range(chars, 0, chars.len())
}

/// Whether two string slices hold the same characters.
pub fn str_eq(a: &str, b: &str) -> (same: bool)
    ensures
        same == (a@ == b@),
{
    let x = a.as_bytes();
    let y = b.as_bytes();
    proof {
        encode_utf8_decode_utf8(a@);
        encode_utf8_decode_utf8(b@);
    }
    if x.len() != y.len() {
        return false;
    }
    let mut i: usize = 0;
    while i < x.len()
        invariant
            i <= x.len(),
            x.len() == y.len(),
            x@ == encode_utf8(a@),
            y@ == encode_utf8(b@),
            decode_utf8(encode_utf8(a@)) == a@,
            decode_utf8(encode_utf8(b@)) == b@,
            forall|j: int| 0 <= j < i ==> x@[j] == y@[j],
        decreases x.len() - i,
    {
        if x[i] != y[i] {
            return false;
        }
        i = i + 1;
    }
    assert(x@ =~= y@);
    true
}

/// The upper-case form of an ASCII letter; any other character unchanged.
pub open spec fn ascii_upper_char(c: char) -> char {
    if 'a' <= c && c <= 'z' {
        ((c as u8) - 32) as char
    } else {
        c
    }
}

/// `s` with every ASCII lower-case letter replaced by its upper-case form.
pub open spec fn ascii_upper(s: Seq<char>) -> Seq<char> {
    Seq::new(s.len(), |i: int| ascii_upper_char(s[i]))
}

/// Whether `s` is upper-case ASCII: every character is an ASCII character,
/// and none is a lower-case letter.
pub open spec fn is_ascii_upper(s: Seq<char>) -> bool {
    is_ascii_chars(s) && ascii_upper(s) == s
}

/// Upper-casing twice is upper-casing once.
pub proof fn lemma_ascii_upper_idempotent(s: Seq<char>)
    ensures
        ascii_upper(ascii_upper(s)) == ascii_upper(s),
{
    assert(ascii_upper(ascii_upper(s)) =~= ascii_upper(s));
}

/// Upper-casing neither introduces nor removes a character that is not an
/// ASCII letter.
pub proof fn lemma_ascii_upper_keeps(s: Seq<char>, c: char)
    requires
        !('a' <= c && c <= 'z'),
        !('A' <= c && c <= 'Z'),
    ensures
        ascii_upper(s).contains(c) == s.contains(c),
{
    if s.contains(c) {
        let i = choose|i: int| 0 <= i < s.len() && s[i] == c;
        assert(ascii_upper(s)[i] == c);
    }
    if ascii_upper(s).contains(c) {
        let i = choose|i: int| 0 <= i < ascii_upper(s).len() && ascii_upper(s)[i] == c;
        assert(s[i] == c);
    }
}

/// Upper-case form of one character.
pub fn to_ascii_upper_char(c: char) -> (u: char)
    ensures
        u == ascii_upper_char(c),
{
    if 'a' <= c && c <= 'z' {
        ((c as u8) - 32) as char
    } else {
        c
    }
}

/// The upper-case form of `s`.
pub fn to_ascii_upper(s: &str) -> (out: String)
    ensures
        out@ == ascii_upper(s@),
{
    let mut out = String::new();
    for c in it: s.chars()
        invariant
            it.seq() == s@,
            out@ == ascii_upper(s@).take(it.index()),
    {
        push_char(&mut out, to_ascii_upper_char(c));
    }
    out
}

/// The character that writes the decimal digit `d`.
pub open spec fn digit_char(d: nat) -> char
    recommends
        d < 10,
{
    ((d + 48) as u8) as char
}

/// Decimal notation of `n`, without sign or leading zeros.
pub open spec fn decimal(n: nat) -> Seq<char>
    decreases n,
{
    if n < 10 {
        seq![digit_char(n)]
    } else {
        decimal(n / 10).push(digit_char(n % 10))
    }
}

/// Appends the decimal notation of `n` to `out`.
pub fn push_decimal(out: &mut String, n: u64)
    ensures
        final(out)@ == old(out)@ + decimal(n as nat),
    decreases n,
{
    if n >= 10 {
        push_decimal(out, n / 10);
    }
    let d: u8 = (n % 10) as u8;
    push_char(out, (d + 48) as char);
    assert(final(out)@ =~= old(out)@ + decimal(n as nat));
}

/// Decimal notation of `n`.
pub fn decimal_string(n: u64) -> (out: String)
    ensures
        out@ == decimal(n as nat),
{
    let mut out = String::new();
    push_decimal(&mut out, n);
    assert(out@ =~= decimal(n as nat));
    out
}

/// Whether `c` is a decimal digit.
pub open spec fn is_digit(c: char) -> bool {
    '0' <= c && c <= '9'
}

/// Whether every character of `s` is a decimal digit.
pub open spec fn all_digits(s: Seq<char>) -> bool {
    forall|i: int| 0 <= i < s.len() ==> is_digit(#[trigger] s[i])
}

/// The number that a sequence of decimal digits writes.
pub open spec fn digits_value(s: Seq<char>) -> nat
    decreases s.len(),
{
    if s.len() == 0 {
        0
    } else {
        digits_value(s.drop_last()) * 10 + ((s.last() as u8) - 48) as nat
    }
}

/// The digits of a number in text: what remains once an optional leading
/// plus sign is taken away.
pub open spec fn unsigned_body(s: Seq<char>) -> Seq<char> {
    if s.len() > 0 && s[0] == '+' {
        s.drop_first()
    } else {
        s
    }
}

/// The number that `s` writes in decimal, if it is at most `max`: an
/// optional plus sign, then one digit or more, and nothing else.
pub open spec fn spec_parse_unsigned(s: Seq<char>, max: nat) -> Option<nat> {
    let body = unsigned_body(s);
    if body.len() > 0 && all_digits(body) && digits_value(body) <= max {
        Some(digits_value(body))
    } else {
        None
    }
}

/// A sequence of digits writes a number that is at least the number that
/// any of its beginnings writes.
pub proof fn lemma_digits_value_grows(s: Seq<char>, k: int)
    requires
        0 <= k <= s.len(),
        all_digits(s),
    ensures
        digits_value(s.take(k)) <= digits_value(s),
    decreases s.len(),
{
    if k == s.len() {
        assert(s.take(k) =~= s);
    } else {
        assert(s.drop_last().take(k) =~= s.take(k));
        lemma_digits_value_grows(s.drop_last(), k);
    }
}

/// The decimal notation of a number is made of digits, and writes it.
pub proof fn lemma_decimal_parses(n: nat)
    ensures
        decimal(n).len() > 0,
        all_digits(decimal(n)),
        digits_value(decimal(n)) == n,
        decimal(n)[0] != '+',
    decreases n,
{
    if n < 10 {
        assert(decimal(n).drop_last() =~= Seq::<char>::empty());
        assert(digits_value(Seq::<char>::empty()) == 0);
        assert(decimal(n).last() == digit_char(n));
    } else {
        lemma_decimal_parses(n / 10);
        assert(decimal(n).drop_last() =~= decimal(n / 10));
        assert(decimal(n)[0] == decimal(n / 10)[0]);
    }
}

/// Reading the decimal notation of a number gives the number back.
pub proof fn lemma_parse_decimal_round_trip(n: nat, max: nat)
    requires
        n <= max,
    ensures
        spec_parse_unsigned(decimal(n), max) == Some(n),
{
    lemma_decimal_parses(n);
}

/// Reads a number in decimal: an optional plus sign, then digits. `None`
/// for any other text and for a number above `max`.
pub fn parse_unsigned(text: &str, max: u64) -> (value: Option<u64>)
    ensures
        match value {
            Some(n) => spec_parse_unsigned(text@, max as nat) == Some(n as nat),
            None => spec_parse_unsigned(text@, max as nat) is None,
        },
{
    let chars = chars_of(text);
    let start: usize = if chars.len() > 0 && chars[0] == '+' {
        1
    } else {
        0
    };
    let ghost body = unsigned_body(text@);
    assert(body =~= chars@.subrange(start as int, chars.len() as int));
    if start == chars.len() {
        return None;
    }
    let mut value: u64 = 0;
    let mut i: usize = start;
    while i < chars.len()
        invariant
            start <= i <= chars.len(),
            body == unsigned_body(text@),
            body == chars@.subrange(start as int, chars.len() as int),
            all_digits(body.take(i - start)),
            value == digits_value(body.take(i - start)),
            value <= max,
        decreases chars.len() - i,
    {
        let c = chars[i];
        let ghost seen = body.take(i - start + 1);
        proof {
            assert(seen.drop_last() =~= body.take(i - start));
            assert(seen.last() == c);
            assert(body[i - start] == c);
        }
        if !('0' <= c && c <= '9') {
            assert(!is_digit(body[i - start]));
            return None;
        }
        let digit: u64 = ((c as u8) - 48) as u64;
        let next = match value.checked_mul(10) {
            Some(scaled) => scaled.checked_add(digit),
            None => None,
        };
        let fits = match next {
            Some(n) => n <= max,
            None => false,
        };
        if !fits {
            proof {
                assert(digits_value(seen) == value * 10 + digit);
                if all_digits(body) {
                    lemma_digits_value_grows(body, i - start + 1);
                }
            }
            return None;
        }
        value = next.unwrap();
        assert(all_digits(seen));
        i = i + 1;
    }
    assert(body.take(i - start) =~= body);
    Some(value)
}

/// Whether `s` begins with `prefix`.
pub open spec fn has_prefix(s: Seq<char>, prefix: Seq<char>) -> bool {
    prefix.len() <= s.len() && s.subrange(0, prefix.len() as int) == prefix
}

/// Whether `chars` begins with `prefix`.
pub fn starts_with(chars: &Vec<char>, prefix: &Vec<char>) -> (yes: bool)
    ensures
        yes == has_prefix(chars@, prefix@),
{
    if prefix.len() > chars.len() {
        return false;
    }
    let mut i: usize = 0;
    while i < prefix.len()
        invariant
            i <= prefix.len() <= chars.len(),
            forall|j: int| 0 <= j < i ==> chars@[j] == prefix@[j],
        decreases prefix.len() - i,
    {
        if chars[i] != prefix[i] {
            assert(chars@.subrange(0, prefix.len() as int)[i as int] == chars@[i as int]);
            return false;
        }
        i = i + 1;
    }
    assert(chars@.subrange(0, prefix.len() as int) =~= prefix@);
    true
}

/// Position of the first `c` in `s` at or after `from`; the length of `s`
/// where there is none.
pub open spec fn first_at(s: Seq<char>, c: char, from: int) -> int
    decreases s.len() - from,
{
    if from < 0 || from >= s.len() {
        s.len() as int
    } else if s[from] == c {
        from
    } else {
        first_at(s, c, from + 1)
    }
}

/// `first_at` is the position of a `c` with no `c` between `from` and it, or
/// the length of `s` with no `c` from `from` on.
pub proof fn lemma_first_at(s: Seq<char>, c: char, from: int)
    requires
        0 <= from <= s.len(),
    ensures
        from <= first_at(s, c, from) <= s.len(),
        first_at(s, c, from) < s.len() ==> s[first_at(s, c, from)] == c,
        forall|j: int| from <= j < first_at(s, c, from) ==> s[j] != c,
    decreases s.len() - from,
{
    if from < s.len() && s[from] != c {
        lemma_first_at(s, c, from + 1);
    }
}

/// A `c` at `at` with no `c` between `from` and `at` is the first one.
pub proof fn lemma_first_at_is(s: Seq<char>, c: char, from: int, at: int)
    requires
        0 <= from <= at < s.len(),
        s[at] == c,
        forall|j: int| from <= j < at ==> s[j] != c,
    ensures
        first_at(s, c, from) == at,
    decreases at - from,
{
    if from < at {
        lemma_first_at_is(s, c, from + 1, at);
    }
}

/// Where `s` holds no `c` from `from` on, `first_at` is the length of `s`.
pub proof fn lemma_first_at_none(s: Seq<char>, c: char, from: int)
    requires
        0 <= from <= s.len(),
        forall|j: int| from <= j < s.len() ==> s[j] != c,
    ensures
        first_at(s, c, from) == s.len(),
    decreases s.len() - from,
{
    if from < s.len() {
        lemma_first_at_none(s, c, from + 1);
    }
}

/// Position of the first `c` in `chars` at or after `from`; the length of
/// `chars` where there is none.
pub fn find_char(chars: &Vec<char>, from: usize, c: char) -> (at: usize)
    requires
        from <= chars.len(),
    ensures
        at == first_at(chars@, c, from as int),
        from <= at <= chars.len(),
{
    let mut i: usize = from;
    while i < chars.len() && chars[i] != c
        invariant
            from <= i <= chars.len(),
            first_at(chars@, c, from as int) == first_at(chars@, c, i as int),
        decreases chars.len() - i,
    {
        i = i + 1;
    }
    i
}

} // verus!
