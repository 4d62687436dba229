//! The character classes and text grammars that the constrained types are checked
//! against, and the pattern searches that decide them.
use vstd::prelude::*;

verus! {

pub open spec fn is_ascii_upper(c: char) -> bool {
    'A' <= c && c <= 'Z'
}

pub open spec fn is_ascii_lower(c: char) -> bool {
    'a' <= c && c <= 'z'
}

pub open spec fn is_ascii_letter(c: char) -> bool {
    is_ascii_upper(c) || is_ascii_lower(c)
}

pub open spec fn is_ascii_digit(c: char) -> bool {
    '0' <= c && c <= '9'
}

pub open spec fn is_ascii_alphanumeric(c: char) -> bool {
    is_ascii_letter(c) || is_ascii_digit(c)
}

pub open spec fn is_lower_hex_digit(c: char) -> bool {
    is_ascii_digit(c) || ('a' <= c && c <= 'f')
}

/// Whether a character outside ASCII is in the regex class `\d`, that is the
/// Unicode decimal-digit category (`\p{Nd}`), as the regex crate's Unicode tables
/// define it.
pub uninterp spec fn non_ascii_decimal_digit(c: char) -> bool;

/// Whether `c` is in the regex class `\d`: within ASCII that class holds exactly
/// `0` to `9`.
pub open spec fn is_decimal_digit(c: char) -> bool {
    is_ascii_digit(c) || ('\u{7f}' < c && non_ascii_decimal_digit(c))
}

/// Some character of `s` is a decimal digit in the Unicode sense.
pub open spec fn has_decimal_digit(s: Seq<char>) -> bool {
    exists|i: int| 0 <= i < s.len() && is_decimal_digit(#[trigger] s[i])
}

/// Punctuation that a person's name may not hold.
pub open spec fn is_name_forbidden_char(c: char) -> bool {
    c == '!' || c == '£' || c == '$' || c == '%' || c == '^' || c == '&' || c == '*' || c == '('
        || c == ')' || c == '{' || c == '}' || c == '\\' || c == '/' || c == '+'
}

pub open spec fn has_name_forbidden_char(s: Seq<char>) -> bool {
    exists|i: int| 0 <= i < s.len() && is_name_forbidden_char(#[trigger] s[i])
}

/// Punctuation that a line of an address may not hold.
pub open spec fn is_address_forbidden_char(c: char) -> bool {
    c == '!' || c == '£' || c == '$' || c == '%' || c == '^' || c == '*' || c == '{' || c == '}'
        || c == '\\' || c == '/' || c == '_'
}

pub open spec fn has_address_forbidden_char(s: Seq<char>) -> bool {
    exists|i: int| 0 <= i < s.len() && is_address_forbidden_char(#[trigger] s[i])
}

/// Punctuation that the name of a trust or a company may not hold.
pub open spec fn is_entity_name_forbidden_char(c: char) -> bool {
    c == '!' || c == '£' || c == '$' || c == '%' || c == '^' || c == '*' || c == '(' || c == ')'
        || c == '{' || c == '}' || c == '\\' || c == '/'
}

pub open spec fn has_entity_name_forbidden_char(s: Seq<char>) -> bool {
    exists|i: int| 0 <= i < s.len() && is_entity_name_forbidden_char(#[trigger] s[i])
}

pub open spec fn is_email_local_char(c: char) -> bool {
    is_ascii_alphanumeric(c) || c == '.' || c == '_' || c == '%' || c == '+' || c == '-'
}

pub open spec fn is_email_domain_char(c: char) -> bool {
    is_ascii_alphanumeric(c) || c == '-'
}

/// `s` reads `local@domain.tld` with its `@` at `at` and the dot before the
/// top-level domain at `dot`: a non-empty local part, a non-empty domain label
/// without dots, and a top-level domain of two or more letters.
pub open spec fn email_parts_at(s: Seq<char>, at: int, dot: int) -> bool {
    &&& 0 < at
    &&& at + 1 < dot
    &&& dot + 2 < s.len()
    &&& s[at] == '@'
    &&& s[dot] == '.'
    &&& forall|i: int| 0 <= i < at ==> is_email_local_char(#[trigger] s[i])
    &&& forall|i: int| at < i < dot ==> is_email_domain_char(#[trigger] s[i])
    &&& forall|i: int| dot < i < s.len() ==> is_ascii_letter(#[trigger] s[i])
}

pub open spec fn is_email_shape(s: Seq<char>) -> bool {
    exists|at: int, dot: int| email_parts_at(s, at, dot)
}

pub open spec fn is_postcode_digit(c: char) -> bool {
    is_decimal_digit(c)
}

pub open spec fn is_postcode_alphanumeric(c: char) -> bool {
    is_ascii_upper(c) || is_postcode_digit(c)
}

/// The outward code of a UK postcode: one or two capitals, a digit, and an
/// optional capital or digit.
pub open spec fn is_outward_code(o: Seq<char>) -> bool {
    ||| (o.len() == 2 && is_ascii_upper(o[0]) && is_postcode_digit(o[1]))
    ||| (o.len() == 3 && is_ascii_upper(o[0]) && is_ascii_upper(o[1]) && is_postcode_digit(o[2]))
    ||| (o.len() == 3 && is_ascii_upper(o[0]) && is_postcode_digit(o[1])
        && is_postcode_alphanumeric(o[2]))
    ||| (o.len() == 4 && is_ascii_upper(o[0]) && is_ascii_upper(o[1]) && is_postcode_digit(o[2])
        && is_postcode_alphanumeric(o[3]))
}

/// The inward code of a UK postcode: a digit and two capitals.
pub open spec fn is_inward_code(i: Seq<char>) -> bool {
    i.len() == 3 && is_postcode_digit(i[0]) && is_ascii_upper(i[1]) && is_ascii_upper(i[2])
}

/// An outward code, then an optional single space, then an inward code.
pub open spec fn is_uk_postcode_shape(s: Seq<char>) -> bool {
    exists|k: int|
        0 <= k <= s.len() && is_outward_code(#[trigger] s.subrange(0, k)) && (is_inward_code(
            s.subrange(k, s.len() as int),
        ) || (k < s.len() && s[k] == ' ' && is_inward_code(s.subrange(k + 1, s.len() as int))))
}

pub open spec fn is_uuid_dash_position(i: int) -> bool {
    i == 8 || i == 13 || i == 18 || i == 23
}

/// The canonical textual form of a UUID: 36 characters, lower-case hex digits
/// in groups of 8, 4, 4, 4 and 12, joined by dashes.
pub open spec fn is_uuid_text(s: Seq<char>) -> bool {
    &&& s.len() == 36
    &&& forall|i: int|
        0 <= i < 36 ==> if is_uuid_dash_position(i) {
            s[i] == '-'
        } else {
            is_lower_hex_digit(#[trigger] s[i])
        }
}

pub open spec fn all_ascii_digits(s: Seq<char>) -> bool {
    forall|i: int| 0 <= i < s.len() ==> is_ascii_digit(#[trigger] s[i])
}

pub open spec fn ascii_digit_value(c: char) -> int {
    (c as u32) - ('0' as u32)
}

/// The number that a run of ASCII digits writes in base ten.
pub open spec fn decimal_value(s: Seq<char>) -> int
    decreases s.len(),
{
    if s.len() == 0 {
        0
    } else {
        10 * decimal_value(s.drop_last()) + ascii_digit_value(s.last())
    }
}

/// The integer that `s` writes: an optional `+` or `-`, then one or more ASCII
/// digits, and nothing else.
pub open spec fn signed_decimal_value(s: Seq<char>) -> Option<int> {
    if s.len() > 0 && all_ascii_digits(s) {
        Some(decimal_value(s))
    } else if s.len() > 1 && s[0] == '+' && all_ascii_digits(s.drop_first()) {
        Some(decimal_value(s.drop_first()))
    } else if s.len() > 1 && s[0] == '-' && all_ascii_digits(s.drop_first()) {
        Some(-decimal_value(s.drop_first()))
    } else {
        None
    }
}

/// The `i32` that `s` writes, if it writes one that fits.
pub open spec fn parsed_i32(s: Seq<char>) -> Option<i32> {
    match signed_decimal_value(s) {
        Some(v) => if i32::MIN <= v <= i32::MAX {
            Some(v as i32)
        } else {
            None
        },
        None => None,
    }
}

/// The description that std's `ParseIntError` gives when `s` is not an `i32`.
pub uninterp spec fn int_parse_error_text(s: Seq<char>) -> Seq<char>;

/// Relies on regex's `Regex::is_match` for the pattern `[\d]`: true exactly when
/// some character of the text is in the class `\d`.
#[verifier::external_body]
pub(crate) fn search_decimal_digit(s: &str) -> (r: bool)
    ensures
        r == (exists|i: int|
            0 <= i < s@.len() && (is_ascii_digit(#[trigger] s@[i]) || ('\u{7f}' < s@[i]
                && non_ascii_decimal_digit(s@[i])))),
{
    regex::Regex::new(r"[\d]").unwrap().is_match(s)
}

/// Relies on regex's `Regex::is_match` for the class `[!£$%^&*(){}\\/+]`: true
/// exactly when some character of the text is one of those listed.
#[verifier::external_body]
pub(crate) fn search_name_forbidden_char(s: &str) -> (r: bool)
    ensures
        r == has_name_forbidden_char(s@),
{
    regex::Regex::new(r"[!£$%^&*(){}\\/+]").unwrap().is_match(s)
}

/// Relies on regex's `Regex::is_match` for the class `[!£$%^*{}\\/_]`: true
/// exactly when some character of the text is one of those listed.
#[verifier::external_body]
pub(crate) fn search_address_forbidden_char(s: &str) -> (r: bool)
    ensures
        r == has_address_forbidden_char(s@),
{
    regex::Regex::new(r"[!£$%^*{}\\/_]").unwrap().is_match(s)
}

/// Relies on regex's `Regex::is_match` for the class `[!£$%^*(){}\\/]`: true
/// exactly when some character of the text is one of those listed.
#[verifier::external_body]
pub(crate) fn search_entity_name_forbidden_char(s: &str) -> (r: bool)
    ensures
        r == has_entity_name_forbidden_char(s@),
{
    regex::Regex::new(r"[!£$%^*(){}\\/]").unwrap().is_match(s)
}

/// Relies on regex's `Regex::is_match` for the anchored pattern
/// `^[a-zA-Z0-9._%+-]+@[a-zA-Z0-9-]+(\.[a-zA-Z]{2,})$`: true exactly when the
/// whole text has that shape (`$` matches only at the end of the text).
#[verifier::external_body]
pub(crate) fn match_email_shape(s: &str) -> (r: bool)
    ensures
        r == is_email_shape(s@),
{
    regex::Regex::new(r"^[a-zA-Z0-9._%+-]+@[a-zA-Z0-9-]+(\.[a-zA-Z]{2,})$").unwrap().is_match(s)
}

/// Relies on regex's `Regex::is_match` for the anchored pattern
/// `^[A-Z]{1,2}\d[A-Z\d]? ?\d[A-Z]{2}$`: true exactly when the whole text has
/// that shape, `\d` being the Unicode decimal-digit class.
#[verifier::external_body]
pub(crate) fn match_uk_postcode_shape(s: &str) -> (r: bool)
    ensures
        r == is_uk_postcode_shape(s@),
{
    regex::Regex::new(r"^[A-Z]{1,2}\d[A-Z\d]? ?\d[A-Z]{2}$").unwrap().is_match(s)
}

/// Relies on regex's `Regex::is_match` for the anchored pattern
/// `^[0-9a-f]{8}-[0-9a-f]{4}-[0-9a-f]{4}-[0-9a-f]{4}-[0-9a-f]{12}$`: true exactly
/// when the whole text is a UUID in lower-case canonical form.
#[verifier::external_body]
pub(crate) fn match_uuid_text(s: &str) -> (r: bool)
    ensures
        r == is_uuid_text(s@),
{
    regex::Regex::new(r"^[0-9a-f]{8}-[0-9a-f]{4}-[0-9a-f]{4}-[0-9a-f]{4}-[0-9a-f]{12}$").unwrap().is_match(
        s,
    )
}

/// Relies on std's `str::parse::<i32>` (`i32::from_str`), documented to accept an
/// optional `+` or `-` followed by digits only, whose value fits in an `i32`; the
/// error's description is a function of the input.
#[verifier::external_body]
pub(crate) fn parse_i32(s: &str) -> (r: Result<i32, String>)
    ensures
        match r {
            Ok(v) => parsed_i32(s@) == Some(v),
            Err(e) => parsed_i32(s@) is None && e@ == int_parse_error_text(s@),
        },
{
    match s.parse::<i32>() {
        Ok(v) => Ok(v),
        Err(e) => Err(e.to_string()),
    }
}

} // verus!
