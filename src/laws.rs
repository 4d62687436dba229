//! Properties that hold of every input, stated over the models that the
//! constructors' contracts use, and proved.
use vstd::prelude::*;

use crate::contacts::{entity_name_failure, MIN_PARTIES};
use crate::error::ErrorKind;
use crate::postal_address::{postal_address_outcome, PostalAddressView, ADDRESS_REQUIRED_MESSAGE};
use crate::review::{
    electronic_parties_failure, multiple_electronic_failure, multiple_post_failure,
    post_parties_failure, UnvalidatedMultipleElectronicContact, UnvalidatedMultiplePostContact,
};
use crate::simple_types::{
    email_violation, person_name_violation, postcode_violation, EMAIL_MESSAGE, MAX_NAME_CHARS,
    NAME_CHARACTERS_MESSAGE, NAME_DIGITS_MESSAGE, NAME_EMPTY_MESSAGE, NAME_TOO_LONG_MESSAGE,
};
use crate::text_rules::{
    email_parts_at, has_decimal_digit, has_name_forbidden_char, is_ascii_letter,
    is_email_domain_char, is_email_local_char, is_inward_code, is_outward_code,
    is_postcode_digit,
};

verus! {

/// A text that keeps every rule for a person's name (not empty, at most 100
/// characters, no digit, none of the forbidden punctuation) is accepted, and the
/// constructed name holds that very text.
pub proof fn person_name_accepts_valid_text(s: Seq<char>)
    requires
        0 < s.len() <= MAX_NAME_CHARS,
        !has_decimal_digit(s),
        !has_name_forbidden_char(s),
    ensures
        person_name_violation(s) is None,
{
}

/// The rules for a person's name are checked in a fixed order, emptiness, then
/// length, then digits, then punctuation, and the first rule broken decides
/// the error; a text that breaks exactly one rule gets that rule's error.
pub proof fn person_name_rule_precedence(s: Seq<char>)
    ensures
        s.len() == 0 ==> person_name_violation(s) == Some(NAME_EMPTY_MESSAGE@),
        s.len() > MAX_NAME_CHARS ==> person_name_violation(s) == Some(NAME_TOO_LONG_MESSAGE@),
        0 < s.len() <= MAX_NAME_CHARS && has_decimal_digit(s) ==> person_name_violation(s) == Some(
            NAME_DIGITS_MESSAGE@,
        ),
        0 < s.len() <= MAX_NAME_CHARS && !has_decimal_digit(s) && has_name_forbidden_char(s)
            ==> person_name_violation(s) == Some(NAME_CHARACTERS_MESSAGE@),
{
}

/// A text of more than 100 characters is refused as too long, whatever it
/// holds, and never for its punctuation.
pub proof fn long_person_name_is_too_long(s: Seq<char>)
    requires
        s.len() > MAX_NAME_CHARS,
    ensures
        person_name_violation(s) == Some(NAME_TOO_LONG_MESSAGE@),
        person_name_violation(s) != Some(NAME_CHARACTERS_MESSAGE@),
{
    reveal_strlit("Constrained string 100 must not have more than 100 characters.");
    reveal_strlit(
        "Constrained name string 100 must not have any unusual special characters such as ! £ $ % ^ & * () {} \\ / _ + in it.",
    );
    assert(NAME_TOO_LONG_MESSAGE@.len() != NAME_CHARACTERS_MESSAGE@.len());
}

/// `local@domain.tld` is accepted when the local part is made of letters, digits
/// and `._%+-`, the domain label of letters, digits and `-`, and the top-level
/// domain of two or more letters.
pub proof fn email_accepts_local_domain_tld(local: Seq<char>, domain: Seq<char>, tld: Seq<char>)
    requires
        local.len() > 0,
        forall|i: int| 0 <= i < local.len() ==> is_email_local_char(#[trigger] local[i]),
        domain.len() > 0,
        forall|i: int| 0 <= i < domain.len() ==> is_email_domain_char(#[trigger] domain[i]),
        tld.len() >= 2,
        forall|i: int| 0 <= i < tld.len() ==> is_ascii_letter(#[trigger] tld[i]),
    ensures
        email_violation(local + seq!['@'] + domain + seq!['.'] + tld) is None,
{
    let s = local + seq!['@'] + domain + seq!['.'] + tld;
    let at = local.len() as int;
    let dot = at + 1 + domain.len();
    assert forall|i: int| 0 <= i < at implies is_email_local_char(#[trigger] s[i]) by {
        assert(s[i] == local[i]);
    }
    assert forall|i: int| at < i < dot implies is_email_domain_char(#[trigger] s[i]) by {
        assert(s[i] == domain[i - at - 1]);
    }
    assert forall|i: int| dot < i < s.len() implies is_ascii_letter(#[trigger] s[i]) by {
        assert(s[i] == tld[i - dot - 1]);
    }
    assert(email_parts_at(s, at, dot));
}

/// A text without `@` is refused as an email address.
pub proof fn email_rejects_text_without_at(s: Seq<char>)
    requires
        forall|i: int| 0 <= i < s.len() ==> #[trigger] s[i] != '@',
    ensures
        email_violation(s) == Some(EMAIL_MESSAGE@),
{
}

/// A text with no `.` followed by two or more letters up to its end is refused
/// as an email address.
pub proof fn email_rejects_text_without_top_level_domain(s: Seq<char>)
    requires
        forall|dot: int|
            0 <= dot && dot + 2 < s.len() && #[trigger] s[dot] == '.' ==> exists|i: int|
                dot < i < s.len() && !is_ascii_letter(#[trigger] s[i]),
    ensures
        email_violation(s) == Some(EMAIL_MESSAGE@),
{
    assert forall|at: int, dot: int| !email_parts_at(s, at, dot) by {
        if email_parts_at(s, at, dot) {
            assert(s[dot] == '.');
        }
    }
}

/// A text with two consecutive dots somewhere after an `@` is refused as an
/// email address.
pub proof fn email_rejects_double_dot_in_domain(s: Seq<char>, at: int, i: int)
    requires
        0 <= at < i,
        i + 1 < s.len(),
        s[at] == '@',
        s[i] == '.',
        s[i + 1] == '.',
    ensures
        email_violation(s) == Some(EMAIL_MESSAGE@),
{
    assert forall|a: int, d: int| !email_parts_at(s, a, d) by {
        if email_parts_at(s, a, d) {
            if at < a {
                assert(is_email_local_char(s[at]));
            } else if a < at && at < d {
                assert(is_email_domain_char(s[at]));
            } else if at == d {
            } else if at > d {
                assert(is_ascii_letter(s[at]));
            }
            assert(at == a);
            if i < d {
                assert(is_email_domain_char(s[i]));
            } else if i == d {
                assert(is_ascii_letter(s[i + 1]));
            } else {
                assert(is_ascii_letter(s[i]));
            }
        }
    }
}

/// A well-formed outward code and inward code make an accepted postcode both
/// with and without a single space between them.
pub proof fn postcode_accepts_with_or_without_space(outward: Seq<char>, inward: Seq<char>)
    requires
        is_outward_code(outward),
        is_inward_code(inward),
    ensures
        postcode_violation(outward + inward) is None,
        postcode_violation(outward + seq![' '] + inward) is None,
{
    let k = outward.len() as int;
    let joined = outward + inward;
    assert(joined.subrange(0, k) =~= outward);
    assert(joined.subrange(k, joined.len() as int) =~= inward);
    let spaced = outward + seq![' '] + inward;
    assert(spaced.subrange(0, k) =~= outward);
    assert(spaced[k] == ' ');
    assert(spaced.subrange(k + 1, spaced.len() as int) =~= inward);
}

/// A text with no digit in it is refused as a postcode.
pub proof fn postcode_rejects_text_without_digit(s: Seq<char>)
    requires
        forall|i: int| 0 <= i < s.len() ==> !is_postcode_digit(#[trigger] s[i]),
    ensures
        postcode_violation(s) is Some,
{
    if s.len() > 0 {
        assert forall|k: int|
            0 <= k <= s.len() && is_outward_code(#[trigger] s.subrange(0, k)) implies false by {
            assert(is_postcode_digit(s.subrange(0, k)[1]) || is_postcode_digit(
                s.subrange(0, k)[2],
            ));
        }
    }
}

/// Fewer than two trustees or directors reached by email is refused as empty
/// input, even when the name and every party given are valid; with two or more,
/// valid parts are accepted.
pub proof fn multiple_electronic_parties_need_two(
    raw: UnvalidatedMultipleElectronicContact,
    count_message: Seq<char>,
)
    requires
        entity_name_failure(raw.entity_name@) is None,
        electronic_parties_failure(raw.parties@) is None,
    ensures
        raw.parties@.len() < MIN_PARTIES ==> multiple_electronic_failure(raw, count_message) == Some(
            (ErrorKind::EmptyInput, count_message),
        ),
        raw.parties@.len() >= MIN_PARTIES ==> multiple_electronic_failure(raw, count_message) is None,
{
}

/// Fewer than two trustees or directors reached by post is refused as empty
/// input, even when the name and every party given are valid; with two or more,
/// valid parts are accepted.
pub proof fn multiple_post_parties_need_two(
    raw: UnvalidatedMultiplePostContact,
    count_message: Seq<char>,
)
    requires
        entity_name_failure(raw.entity_name@) is None,
        post_parties_failure(raw.parties@) is None,
    ensures
        raw.parties@.len() < MIN_PARTIES ==> multiple_post_failure(raw, count_message) == Some(
            (ErrorKind::EmptyInput, count_message),
        ),
        raw.parties@.len() >= MIN_PARTIES ==> multiple_post_failure(raw, count_message) is None,
{
}

/// An address without its first line, its city or its postcode is refused for
/// that reason alone, whatever the other parts hold and whether the postcode is
/// well formed.
pub proof fn address_without_mandatory_part_fails(
    house_name: Option<Seq<char>>,
    house_number: Option<Seq<char>>,
    address_line_one: Seq<char>,
    address_line_two: Option<Seq<char>>,
    address_line_three: Option<Seq<char>>,
    address_line_four: Option<Seq<char>>,
    city: Seq<char>,
    county: Option<Seq<char>>,
    postcode: Seq<char>,
    country: Option<Seq<char>>,
)
    requires
        address_line_one.len() == 0 || city.len() == 0 || postcode.len() == 0,
    ensures
        postal_address_outcome(
            house_name,
            house_number,
            address_line_one,
            address_line_two,
            address_line_three,
            address_line_four,
            city,
            county,
            postcode,
            country,
        ) == Err::<PostalAddressView, Seq<char>>(ADDRESS_REQUIRED_MESSAGE@),
{
}

} // verus!
