//! Text helpers: string comparison, decimal numbers and upper-case hexadecimal.
//!
//! Specifications speak of strings as sequences of characters; the executable
//! code reads ASCII strings byte by byte.

use vstd::prelude::*;
use vstd::string::StringExecFns;
use vstd::string::StringSliceAdditionalSpecFns;
use vstd::string::is_ascii_spec_bytes;
use vstd::utf8::encode_utf8;
use vstd::utf8::encode_utf8_decode_utf8;
use vstd::utf8::is_ascii_chars;

verus! {

/// Whether `c` is one of the ten ASCII digits.
pub open spec fn is_digit(c: char) -> bool {
    '0' <= c && c <= '9'
}

/// The number that an ASCII digit stands for.
pub open spec fn digit_value(c: char) -> nat
    recommends
        is_digit(c),
{
    (c as u32 - '0' as u32) as nat
}

/// The ASCII digit that stands for `d`.
pub open spec fn digit_char(d: nat) -> char
    recommends
        d < 10,
{
    (d + '0' as u32) as char
}

/// Whether every character of `s` is an ASCII digit.
pub open spec fn all_digits(s: Seq<char>) -> bool {
    forall|i: int| 0 <= i < s.len() ==> is_digit(#[trigger] s[i])
}

/// The value of a run of ASCII digits read as a decimal number; leading zeros count for nothing.
pub open spec fn digits_value(s: Seq<char>) -> nat
    decreases s.len(),
{
    if s.len() == 0 {
        0
    } else {
        digits_value(s.drop_last()) * 10 + digit_value(s.last())
    }
}

/// The number below 256 that `s` denotes: one or more ASCII digits and
/// nothing else, leading zeros allowed. Any other text, one with a sign too,
/// denotes no number.
pub open spec fn decimal_u8(s: Seq<char>) -> Option<u8> {
    if s.len() > 0 && all_digits(s) && digits_value(s) <= u8::MAX {
        Some(digits_value(s) as u8)
    } else {
        None
    }
}

/// The shortest decimal text of `n`.
pub open spec fn decimal_text(n: nat) -> Seq<char>
    decreases n,
{
    if n < 10 {
        seq![digit_char(n)]
    } else {
        decimal_text(n / 10).push(digit_char(n % 10))
    }
}

/// The value of a run of digits is at least the value of each of its prefixes.
pub proof fn lemma_digits_value_prefix(s: Seq<char>, k: int)
    requires
        0 <= k <= s.len(),
    ensures
        digits_value(s.subrange(0, k)) <= digits_value(s),
    decreases s.len(),
{
    if k == s.len() {
        assert(s.subrange(0, k) =~= s);
    } else {
        lemma_digits_value_prefix(s.drop_last(), k);
        assert(s.drop_last().subrange(0, k) =~= s.subrange(0, k));
    }
}

/// The decimal text of a number is a run of digits whose value is that number.
pub proof fn lemma_decimal_text_value(n: nat)
    ensures
        decimal_text(n).len() > 0,
        all_digits(decimal_text(n)),
        digits_value(decimal_text(n)) == n,
    decreases n,
{
    if n < 10 {
        let s = decimal_text(n);
        assert(s.drop_last() =~= Seq::<char>::empty());
        assert(digits_value(s.drop_last()) == 0);
    } else {
        lemma_decimal_text_value(n / 10);
        let s = decimal_text(n);
        assert(s.drop_last() =~= decimal_text(n / 10));
    }
}

/// Reading back the decimal text of a number below 256 gives that number.
pub proof fn lemma_decimal_u8_roundtrip(n: u8)
    ensures
        decimal_u8(decimal_text(n as nat)) == Some(n),
{
    lemma_decimal_text_value(n as nat);
}

/// Whether two strings hold the same characters.
pub fn str_eq(a: &str, b: &str) -> (same: bool)
    ensures
        same == (a@ == b@),
{
    let x = a.as_bytes();
    let y = b.as_bytes();
    proof {
        encode_utf8_decode_utf8(a@);
        encode_utf8_decode_utf8(b@);
    }
    if x.len() != y.len() {
        return false;
    }
    let mut i: usize = 0;
    while i < x.len()
        invariant
            i <= x.len(),
            x.len() == y.len(),
            x@ == encode_utf8(a@),
            y@ == encode_utf8(b@),
            forall|j: int| 0 <= j < i ==> x@[j] == y@[j],
        decreases x.len() - i,
    {
        if x[i] != y[i] {
            return false;
        }
        i += 1;
    }
    assert(x@ =~= y@);
    true
}

/// Whether the ASCII string `s` begins with the ASCII string `prefix`.
pub(crate) fn ascii_starts_with(s: &str, prefix: &str) -> (found: bool)
    requires
        is_ascii_chars(s@),
        is_ascii_chars(prefix@),
    ensures
        found == (prefix@.len() <= s@.len() && s@.subrange(0, prefix@.len() as int) == prefix@),
{
    proof {
        is_ascii_spec_bytes(s);
        is_ascii_spec_bytes(prefix);
    }
    let text = s.as_bytes();
    let wanted = prefix.as_bytes();
    let n = wanted.len();
    if text.len() < n {
        return false;
    }
    let mut i: usize = 0;
    while i < n
        invariant
            i <= n,
            n == prefix@.len(),
            n <= s@.len(),
            is_ascii_chars(s@),
            is_ascii_chars(prefix@),
            text@ == s.spec_bytes(),
            wanted@ == prefix.spec_bytes(),
            text@ == Seq::new(s@.len(), |k: int| s@[k] as u8),
            wanted@ == Seq::new(prefix@.len(), |k: int| prefix@[k] as u8),
            forall|j: int| 0 <= j < i ==> s@[j] == prefix@[j],
        decreases n - i,
    {
        let x = text[i];
        let y = wanted[i];
        if x != y {
            assert(s@.subrange(0, n as int)[i as int] == s@[i as int]);
            return false;
        }
        i += 1;
    }
    assert(s@.subrange(0, n as int) =~= prefix@);
    true
}

/// Reads the number below 256 that the ASCII string `s` denotes from
/// position `from` on.
pub(crate) fn parse_u8_from(s: &str, from: usize) -> (number: Option<u8>)
    requires
        is_ascii_chars(s@),
        from <= s@.len(),
    ensures
        number == decimal_u8(s@.subrange(from as int, s@.len() as int)),
{
    proof {
        is_ascii_spec_bytes(s);
    }
    let bytes = s.as_bytes();
    let len = bytes.len();
    let ghost digits = s@.subrange(from as int, len as int);
    if from == len {
        return None;
    }
    let mut value: u16 = 0;
    let mut i: usize = from;
    while i < len
        invariant
            from <= i <= len,
            len == s@.len(),
            is_ascii_chars(s@),
            bytes@ == Seq::new(s@.len(), |k: int| s@[k] as u8),
            digits == s@.subrange(from as int, len as int),
            all_digits(digits.subrange(0, i - from)),
            value == digits_value(digits.subrange(0, i - from)),
            value <= u8::MAX,
        decreases len - i,
    {
        let c = bytes[i];
        assert(digits[i - from] == s@[i as int]);
        if c < 48 || c > 57 {
            return None;
        }
        let ghost longer = digits.subrange(0, i - from + 1);
        assert(longer.drop_last() =~= digits.subrange(0, i - from));
        assert(longer.last() == s@[i as int]);
        value = value * 10 + (c - 48) as u16;
        if value > 255 {
            proof {
                lemma_digits_value_prefix(digits, i - from + 1);
            }
            return None;
        }
        i += 1;
    }
    assert(digits.subrange(0, i - from) =~= digits);
    Some(value as u8)
}

/// Reads the number below 256 that `s` denotes.
pub fn parse_u8(s: &str) -> (number: Option<u8>)
    ensures
        number == decimal_u8(s@),
{
    if !s.is_ascii() {
        proof {
            lemma_not_ascii_no_number(s@);
        }
        return None;
    }
    assert(s@.subrange(0, s@.len() as int) =~= s@);
    parse_u8_from(s, 0)
}

/// A text with a character outside ASCII denotes no number.
pub proof fn lemma_not_ascii_no_number(s: Seq<char>)
    requires
        !is_ascii_chars(s),
    ensures
        decimal_u8(s) is None,
{
    let k = choose|k: int| 0 <= k < s.len() && !('\0' <= #[trigger] s[k] <= '\u{7f}');
    assert(!is_digit(s[k]));
}

/// A text that denotes a number holds ASCII digits only.
pub proof fn lemma_number_is_digits(s: Seq<char>, k: int)
    requires
        decimal_u8(s) is Some,
        0 <= k < s.len(),
    ensures
        is_digit(s[k]),
{
}

/// The one-character string of a decimal digit.
pub(crate) fn digit_str(d: u8) -> (s: &'static str)
    requires
        d < 10,
    ensures
        s@ == seq![digit_char(d as nat)],
{
    proof {
        reveal_strlit("0");
        reveal_strlit("1");
        reveal_strlit("2");
        reveal_strlit("3");
        reveal_strlit("4");
        reveal_strlit("5");
        reveal_strlit("6");
        reveal_strlit("7");
        reveal_strlit("8");
        reveal_strlit("9");
    }
    let s = match d {
        0 => "0",
        1 => "1",
        2 => "2",
        3 => "3",
        4 => "4",
        5 => "5",
        6 => "6",
        7 => "7",
        8 => "8",
        _ => "9",
    };
    assert(s@ =~= seq![digit_char(d as nat)]);
    s
}

/// Appends the shortest decimal text of `n` to `out`.
pub fn push_decimal(out: &mut String, n: u32)
    ensures
        final(out)@ == old(out)@ + decimal_text(n as nat),
    decreases n,
{
    if n >= 10 {
        push_decimal(out, n / 10);
    }
    out.append(digit_str((n % 10) as u8));
    assert(out@ =~= old(out)@ + decimal_text(n as nat));
}

/// The upper-case hexadecimal digit that stands for `d`.
pub open spec fn hex_digit_char(d: nat) -> char
    recommends
        d < 16,
{
    if d < 10 {
        digit_char(d)
    } else {
        (d - 10 + 'A' as u32) as char
    }
}

/// The two upper-case hexadecimal digits of a byte.
pub open spec fn hex_byte_text(b: u8) -> Seq<char> {
    seq![hex_digit_char(b as nat / 16), hex_digit_char(b as nat % 16)]
}

/// The one-character string of an upper-case hexadecimal digit.
pub(crate) fn hex_digit_str(d: u8) -> (s: &'static str)
    requires
        d < 16,
    ensures
        s@ == seq![hex_digit_char(d as nat)],
{
    if d < 10 {
        return digit_str(d);
    }
    proof {
        reveal_strlit("A");
        reveal_strlit("B");
        reveal_strlit("C");
        reveal_strlit("D");
        reveal_strlit("E");
        reveal_strlit("F");
    }
    let s = match d {
        10 => "A",
        11 => "B",
        12 => "C",
        13 => "D",
        14 => "E",
        _ => "F",
    };
    assert(s@ =~= seq![hex_digit_char(d as nat)]);
    s
}

/// Appends the two upper-case hexadecimal digits of `b` to `out`.
pub fn push_hex_byte(out: &mut String, b: u8)
    ensures
        final(out)@ == old(out)@ + hex_byte_text(b),
{
    out.append(hex_digit_str(b / 16));
    out.append(hex_digit_str(b % 16));
    assert(out@ =~= old(out)@ + hex_byte_text(b));
}

/// The truth value that `s` denotes: `true` or `false`, nothing else.
pub open spec fn bool_of(s: Seq<char>) -> Option<bool> {
    if s == "true"@ {
        Some(true)
    } else if s == "false"@ {
        Some(false)
    } else {
        None
    }
}

/// Reads a truth value: what `bool::from_str` accepts.
pub fn parse_bool(s: &str) -> (value: Option<bool>)
    ensures
        value == bool_of(s@),
{
    if str_eq(s, "true") {
        Some(true)
    } else if str_eq(s, "false") {
        Some(false)
    } else {
        None
    }
}

} // verus!
