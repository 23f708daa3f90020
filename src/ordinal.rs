//! Decoding of English ordinal words ("3rd", "twenty-first", "last").

use vstd::prelude::*;
use vstd::string::StrSliceExecFns;

verus! {

/// `c` with an ASCII upper-case letter mapped to its lower-case form.
pub open spec fn ascii_lower_char(c: char) -> char {
    if 'A' <= c && c <= 'Z' {
        (((c as u32) + 32) as u8) as char
    } else {
        c
    }
}

pub open spec fn ascii_lower(s: Seq<char>) -> Seq<char> {
    Seq::new(s.len(), |i: int| ascii_lower_char(s[i]))
}

pub open spec fn is_ascii_digit(c: char) -> bool {
    '0' <= c && c <= '9'
}

/// Value of a string of decimal digits.
pub open spec fn decimal_value(s: Seq<char>) -> int
    decreases s.len(),
{
    if s.len() == 0 {
        0
    } else {
        decimal_value(s.drop_last()) * 10 + ((s.last() as u32) - ('0' as u32))
    }
}

/// What `u32`'s `FromStr` accepts: an optional `+`, then one or more ASCII
/// digits whose value fits in 32 bits.
pub open spec fn u32_from_decimal(s: Seq<char>) -> Option<u32> {
    let body = if s.len() > 0 && s[0] == '+' { s.drop_first() } else { s };
    if body.len() > 0 && (forall|i: int| 0 <= i < body.len() ==> is_ascii_digit(#[trigger] body[i]))
        && decimal_value(body) <= u32::MAX {
        Some(decimal_value(body) as u32)
    } else {
        None
    }
}

/// Relies on `str::to_ascii_lowercase`: ASCII letters lowered, every other
/// character kept.
#[verifier::external_body]
pub(crate) fn lower_ascii(s: &str) -> (r: String)
    ensures
        r@ == ascii_lower(s@),
{
    s.to_ascii_lowercase()
}

/// Relies on `u32`'s `FromStr` (`str::parse::<u32>`), reading a decimal number.
#[verifier::external_body]
pub(crate) fn parse_u32(s: &str) -> (r: Option<u32>)
    ensures
        r == u32_from_decimal(s@),
{
    s.parse::<u32>().ok()
}

/// Whether two strings hold the same characters.
pub(crate) fn same_text(a: &str, b: &str) -> (r: bool)
    ensures
        r == (a@ == b@),
{
    let n = a.unicode_len();
    let m = b.unicode_len();
    if n != m {
        return false;
    }
    let mut i: usize = 0;
    while i < n
        invariant
            n == a@.len(),
            m == b@.len(),
            n == m,
            i <= n,
            forall|j: int| 0 <= j < i ==> a@[j] == b@[j],
        decreases n - i,
    {
        if a.get_char(i) != b.get_char(i) {
            return false;
        }
        i = i + 1;
    }
    assert(a@ =~= b@);
    true
}

pub open spec fn has_ordinal_suffix(s: Seq<char>) -> bool {
    let suffix = s.subrange(s.len() - 2, s.len() as int);
    s.len() >= 2 && (suffix == "st"@ || suffix == "nd"@ || suffix == "rd"@ || suffix == "th"@)
}

/// "1st", "22nd", "3rd", "4th": the number before a two-letter suffix.
pub open spec fn numeric_ordinal_value(s: Seq<char>) -> Option<u32> {
    if has_ordinal_suffix(s) {
        u32_from_decimal(s.subrange(0, s.len() - 2))
    } else {
        None
    }
}

pub open spec fn tens_base_value(w: Seq<char>) -> Option<u32> {
    if w == "twenty"@ { Some(20u32) }
    else if w == "thirty"@ { Some(30u32) }
    else if w == "forty"@ { Some(40u32) }
    else if w == "fifty"@ { Some(50u32) }
    else if w == "sixty"@ { Some(60u32) }
    else if w == "seventy"@ { Some(70u32) }
    else if w == "eighty"@ { Some(80u32) }
    else if w == "ninety"@ { Some(90u32) }
    else { None }
}

pub open spec fn units_ordinal_value(w: Seq<char>) -> Option<u32> {
    if w == "first"@ { Some(1u32) }
    else if w == "second"@ { Some(2u32) }
    else if w == "third"@ { Some(3u32) }
    else if w == "fourth"@ { Some(4u32) }
    else if w == "fifth"@ { Some(5u32) }
    else if w == "sixth"@ { Some(6u32) }
    else if w == "seventh"@ { Some(7u32) }
    else if w == "eighth"@ { Some(8u32) }
    else if w == "ninth"@ { Some(9u32) }
    else { None }
}

pub open spec fn tens_ordinal_value(w: Seq<char>) -> Option<u32> {
    if w == "twentieth"@ { Some(20u32) }
    else if w == "thirtieth"@ { Some(30u32) }
    else if w == "fortieth"@ { Some(40u32) }
    else if w == "fiftieth"@ { Some(50u32) }
    else if w == "sixtieth"@ { Some(60u32) }
    else if w == "seventieth"@ { Some(70u32) }
    else if w == "eightieth"@ { Some(80u32) }
    else if w == "ninetieth"@ { Some(90u32) }
    else { None }
}

/// Whether `s` holds a hyphen, and at which first position.
pub open spec fn first_hyphen(s: Seq<char>, i: int) -> bool {
    0 <= i < s.len() && s[i] == '-' && forall|j: int| 0 <= j < i ==> s[j] != '-'
}

pub open spec fn has_hyphen(s: Seq<char>) -> bool {
    exists|i: int| 0 <= i < s.len() && s[i] == '-'
}

/// "twenty-first" .. "ninety-ninth", or a tens ordinal such as "fortieth".
pub open spec fn compound_ordinal_value(s: Seq<char>) -> Option<u32> {
    if has_hyphen(s) {
        let i = choose|i: int| first_hyphen(s, i);
        match (tens_base_value(s.subrange(0, i)), units_ordinal_value(s.subrange(i + 1, s.len() as int))) {
            (Some(t), Some(u)) => Some((t + u) as u32),
            _ => None,
        }
    } else {
        tens_ordinal_value(s)
    }
}

pub open spec fn word_ordinal_value(s: Seq<char>) -> Option<u32> {
    if s == "first"@ { Some(1u32) }
    else if s == "second"@ { Some(2u32) }
    else if s == "third"@ { Some(3u32) }
    else if s == "fourth"@ { Some(4u32) }
    else if s == "fifth"@ { Some(5u32) }
    else if s == "sixth"@ { Some(6u32) }
    else if s == "seventh"@ { Some(7u32) }
    else if s == "eighth"@ { Some(8u32) }
    else if s == "ninth"@ { Some(9u32) }
    else if s == "tenth"@ { Some(10u32) }
    else if s == "eleventh"@ { Some(11u32) }
    else if s == "twelfth"@ { Some(12u32) }
    else if s == "thirteenth"@ { Some(13u32) }
    else if s == "fourteenth"@ { Some(14u32) }
    else if s == "fifteenth"@ { Some(15u32) }
    else if s == "sixteenth"@ { Some(16u32) }
    else if s == "seventeenth"@ { Some(17u32) }
    else if s == "eighteenth"@ { Some(18u32) }
    else if s == "nineteenth"@ { Some(19u32) }
    else if s == "twentieth"@ { Some(20u32) }
    else { compound_ordinal_value(s) }
}

/// The number an ordinal word stands for, letter case aside.
pub open spec fn ordinal_value(s: Seq<char>) -> Option<u32> {
    let lower = ascii_lower(s);
    match numeric_ordinal_value(lower) {
        Some(n) => Some(n),
        None => word_ordinal_value(lower),
    }
}

/// Decodes an ordinal written with digits or with words, in any letter case.
pub fn ordinal_from_str(s: &str) -> (r: Option<u32>)
    ensures
        r == ordinal_value(s@),
{
    let lower = lower_ascii(s);
    if let Some(n) = parse_numeric_ordinal(lower.as_str()) {
        return Some(n);
    }
    if let Some(n) = parse_word_ordinal(lower.as_str()) {
        return Some(n);
    }
    None
}

/// Decodes "1st", "22nd", "3rd", "4th".
pub fn parse_numeric_ordinal(s: &str) -> (r: Option<u32>)
    ensures
        r == numeric_ordinal_value(s@),
{
    let n = s.unicode_len();
    if n < 2 {
        return None;
    }
    let suffix = s.substring_char(n - 2, n);
    if same_text(suffix, "st") || same_text(suffix, "nd") || same_text(suffix, "rd") || same_text(suffix, "th") {
        parse_u32(s.substring_char(0, n - 2))
    } else {
        None
    }
}

/// Decodes "twenty" .. "ninety".
pub fn parse_tens_base(word: &str) -> (r: Option<u32>)
    ensures
        r == tens_base_value(word@),
{
    if same_text(word, "twenty") { Some(20) }
    else if same_text(word, "thirty") { Some(30) }
    else if same_text(word, "forty") { Some(40) }
    else if same_text(word, "fifty") { Some(50) }
    else if same_text(word, "sixty") { Some(60) }
    else if same_text(word, "seventy") { Some(70) }
    else if same_text(word, "eighty") { Some(80) }
    else if same_text(word, "ninety") { Some(90) }
    else { None }
}

/// Decodes "first" .. "ninth".
pub fn parse_units_ordinal(word: &str) -> (r: Option<u32>)
    ensures
        r == units_ordinal_value(word@),
{
    if same_text(word, "first") { Some(1) }
    else if same_text(word, "second") { Some(2) }
    else if same_text(word, "third") { Some(3) }
    else if same_text(word, "fourth") { Some(4) }
    else if same_text(word, "fifth") { Some(5) }
    else if same_text(word, "sixth") { Some(6) }
    else if same_text(word, "seventh") { Some(7) }
    else if same_text(word, "eighth") { Some(8) }
    else if same_text(word, "ninth") { Some(9) }
    else { None }
}

/// Decodes the ordinal words "first" .. "twentieth" and the compound forms.
pub fn parse_word_ordinal(s: &str) -> (r: Option<u32>)
    ensures
        r == word_ordinal_value(s@),
{
    if same_text(s, "first") { Some(1) }
    else if same_text(s, "second") { Some(2) }
    else if same_text(s, "third") { Some(3) }
    else if same_text(s, "fourth") { Some(4) }
    else if same_text(s, "fifth") { Some(5) }
    else if same_text(s, "sixth") { Some(6) }
    else if same_text(s, "seventh") { Some(7) }
    else if same_text(s, "eighth") { Some(8) }
    else if same_text(s, "ninth") { Some(9) }
    else if same_text(s, "tenth") { Some(10) }
    else if same_text(s, "eleventh") { Some(11) }
    else if same_text(s, "twelfth") { Some(12) }
    else if same_text(s, "thirteenth") { Some(13) }
    else if same_text(s, "fourteenth") { Some(14) }
    else if same_text(s, "fifteenth") { Some(15) }
    else if same_text(s, "sixteenth") { Some(16) }
    else if same_text(s, "seventeenth") { Some(17) }
    else if same_text(s, "eighteenth") { Some(18) }
    else if same_text(s, "nineteenth") { Some(19) }
    else if same_text(s, "twentieth") { Some(20) }
    else { parse_compound_ordinal(s) }
}

/// Decodes "twentieth" .. "ninetieth".
pub fn parse_tens_ordinal(word: &str) -> (r: Option<u32>)
    ensures
        r == tens_ordinal_value(word@),
{
    if same_text(word, "twentieth") { Some(20) }
    else if same_text(word, "thirtieth") { Some(30) }
    else if same_text(word, "fortieth") { Some(40) }
    else if same_text(word, "fiftieth") { Some(50) }
    else if same_text(word, "sixtieth") { Some(60) }
    else if same_text(word, "seventieth") { Some(70) }
    else if same_text(word, "eightieth") { Some(80) }
    else if same_text(word, "ninetieth") { Some(90) }
    else { None }
}

/// Decodes a tens word, a hyphen and a units ordinal ("forty-fifth"), or a
/// tens ordinal without a hyphen.
pub fn parse_compound_ordinal(s: &str) -> (r: Option<u32>)
    ensures
        r == compound_ordinal_value(s@),
{
    let n = s.unicode_len();
    let mut i: usize = 0;
    while i < n
        invariant
            n == s@.len(),
            i <= n,
            forall|j: int| 0 <= j < i ==> s@[j] != '-',
        decreases n - i,
    {
        if s.get_char(i) == '-' {
            assert(first_hyphen(s@, i as int));
            proof {
                let k = choose|k: int| first_hyphen(s@, k);
                assert(k == i as int) by {
                    if k < i as int {
                    } else if k > i as int {
                        assert(s@[i as int] != '-');
                    }
                }
            }
            let tens = parse_tens_base(s.substring_char(0, i));
            let units = parse_units_ordinal(s.substring_char(i + 1, n));
            return match (tens, units) {
                (Some(t), Some(u)) => Some(t + u),
                _ => None,
            };
        }
        i = i + 1;
    }
    parse_tens_ordinal(s)
}

} // verus!
