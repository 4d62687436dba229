//! Constrained scalar types: each wraps text that satisfied its type's rules when
//! it was constructed, and can only be obtained through its checking constructor.
use vstd::prelude::*;
use vstd::string::StrSliceExecFns;

use crate::text_rules::{
    has_address_forbidden_char, has_decimal_digit, has_entity_name_forbidden_char,
    has_name_forbidden_char, is_email_shape, is_uk_postcode_shape, is_uuid_text,
    match_email_shape, match_uk_postcode_shape, match_uuid_text, search_address_forbidden_char,
    search_decimal_digit, search_entity_name_forbidden_char, search_name_forbidden_char,
};

verus! {

pub const MAX_NAME_CHARS: usize = 100;

pub const MAX_ENTITY_NAME_CHARS: usize = 200;

pub const CLIENT_ID_MESSAGE: &'static str = "Client id does not include valid uuid string";

pub const ADDRESS_TOO_LONG_MESSAGE: &'static str =
    "Constrained address string 100 must not have more than 100 characters.";

pub const ADDRESS_CHARACTERS_MESSAGE: &'static str =
    "Constrained address string 100 must not have any unusual special characters such as ! £ $ % ^ * {} \\ / _ in it.";

pub const NAME_EMPTY_MESSAGE: &'static str =
    "Constrained string 100 characters must have at least one character.";

pub const NAME_TOO_LONG_MESSAGE: &'static str =
    "Constrained string 100 must not have more than 100 characters.";

pub const NAME_DIGITS_MESSAGE: &'static str = "Constrained name string 100 must not have any numbers in it.";

pub const NAME_CHARACTERS_MESSAGE: &'static str =
    "Constrained name string 100 must not have any unusual special characters such as ! £ $ % ^ & * () {} \\ / _ + in it.";

pub const EMAIL_MESSAGE: &'static str = "Invalid email address format.";

pub const POSTCODE_EMPTY_MESSAGE: &'static str = "Postcode must not be empty.";

pub const POSTCODE_FORMAT_MESSAGE: &'static str = "Invalid UK postcode format.";

pub const ENTITY_NAME_CHARACTERS_MESSAGE: &'static str =
    "Constrained trust or company name string 100 must not have any unusual special characters such as ! £ $ % ^ * () {} \\ / _ in it.";

/// The first rule that `s` breaks as a client identifier, if any.
pub open spec fn client_id_violation(s: Seq<char>) -> Option<Seq<char>> {
    if !is_uuid_text(s) {
        Some(CLIENT_ID_MESSAGE@)
    } else {
        None
    }
}

/// The first rule that `s` breaks as a line of an address, if any: length first,
/// then punctuation.
pub open spec fn address_fragment_violation(s: Seq<char>) -> Option<Seq<char>> {
    if s.len() > MAX_NAME_CHARS {
        Some(ADDRESS_TOO_LONG_MESSAGE@)
    } else if has_address_forbidden_char(s) {
        Some(ADDRESS_CHARACTERS_MESSAGE@)
    } else {
        None
    }
}

/// The first rule that `s` breaks as a person's name, if any: emptiness, then
/// length, then digits, then punctuation.
pub open spec fn person_name_violation(s: Seq<char>) -> Option<Seq<char>> {
    if s.len() == 0 {
        Some(NAME_EMPTY_MESSAGE@)
    } else if s.len() > MAX_NAME_CHARS {
        Some(NAME_TOO_LONG_MESSAGE@)
    } else if has_decimal_digit(s) {
        Some(NAME_DIGITS_MESSAGE@)
    } else if has_name_forbidden_char(s) {
        Some(NAME_CHARACTERS_MESSAGE@)
    } else {
        None
    }
}

/// The first rule that `s` breaks as an email address, if any.
pub open spec fn email_violation(s: Seq<char>) -> Option<Seq<char>> {
    if !is_email_shape(s) {
        Some(EMAIL_MESSAGE@)
    } else {
        None
    }
}

/// The first rule that `s` breaks as a UK postcode, if any.
pub open spec fn postcode_violation(s: Seq<char>) -> Option<Seq<char>> {
    if s.len() == 0 {
        Some(POSTCODE_EMPTY_MESSAGE@)
    } else if !is_uk_postcode_shape(s) {
        Some(POSTCODE_FORMAT_MESSAGE@)
    } else {
        None
    }
}

/// The first rule that `s` breaks as the name of a trust or a company, if any:
/// emptiness, then length, then punctuation.
pub open spec fn entity_name_violation(s: Seq<char>) -> Option<Seq<char>> {
    if s.len() == 0 {
        Some(NAME_EMPTY_MESSAGE@)
    } else if s.len() > MAX_ENTITY_NAME_CHARS {
        Some(NAME_TOO_LONG_MESSAGE@)
    } else if has_entity_name_forbidden_char(s) {
        Some(ENTITY_NAME_CHARACTERS_MESSAGE@)
    } else {
        None
    }
}

/// A client identifier in canonical UUID form.
#[derive(Debug, PartialEq, Eq)]
pub struct ClientId(String);

impl View for ClientId {
    type V = Seq<char>;

    closed spec fn view(&self) -> Seq<char> {
        self.0@
    }
}

impl ClientId {
    #[verifier::type_invariant]
    closed spec fn inv(&self) -> bool {
        client_id_violation(self.0@) is None
    }

    pub fn value(&self) -> (r: &str)
        ensures
            r@ == self@,
            client_id_violation(r@) is None,
    {
        proof {
            use_type_invariant(self);
        }
        self.0.as_str()
    }

    pub fn try_from(client_id_string: String) -> (r: Result<Self, &'static str>)
        ensures
            match r {
                Ok(v) => client_id_violation(client_id_string@) is None && v@ == client_id_string@,
                Err(e) => client_id_violation(client_id_string@) == Some(e@),
            },
    {
        if !match_uuid_text(client_id_string.as_str()) {
            Err(CLIENT_ID_MESSAGE)
        } else {
            Ok(ClientId(client_id_string))
        }
    }

}

/// One line of an address, a city, a county or a country.
#[derive(Debug, PartialEq, Eq)]
pub struct ConstrainedAddressString100(String);

impl View for ConstrainedAddressString100 {
    type V = Seq<char>;

    closed spec fn view(&self) -> Seq<char> {
        self.0@
    }
}

impl ConstrainedAddressString100 {
    #[verifier::type_invariant]
    closed spec fn inv(&self) -> bool {
        address_fragment_violation(self.0@) is None
    }

    pub fn value(&self) -> (r: &str)
        ensures
            r@ == self@,
            address_fragment_violation(r@) is None,
    {
        proof {
            use_type_invariant(self);
        }
        self.0.as_str()
    }

    pub fn try_from(string: String) -> (r: Result<Self, &'static str>)
        ensures
            match r {
                Ok(v) => address_fragment_violation(string@) is None && v@ == string@,
                Err(e) => address_fragment_violation(string@) == Some(e@),
            },
    {
        if string.as_str().unicode_len() > MAX_NAME_CHARS {
            Err(ADDRESS_TOO_LONG_MESSAGE)
        } else if search_address_forbidden_char(string.as_str()) {
            Err(ADDRESS_CHARACTERS_MESSAGE)
        } else {
            Ok(ConstrainedAddressString100(string))
        }
    }

}

/// A person's first name.
#[derive(Debug, PartialEq, Eq)]
pub struct ConstrainedIndividualNameString100(String);

impl View for ConstrainedIndividualNameString100 {
    type V = Seq<char>;

    closed spec fn view(&self) -> Seq<char> {
        self.0@
    }
}

impl ConstrainedIndividualNameString100 {
    #[verifier::type_invariant]
    closed spec fn inv(&self) -> bool {
        person_name_violation(self.0@) is None
    }

    pub fn value(&self) -> (r: &str)
        ensures
            r@ == self@,
            person_name_violation(r@) is None,
    {
        proof {
            use_type_invariant(self);
        }
        self.0.as_str()
    }

    pub fn try_from(name: String) -> (r: Result<Self, &'static str>)
        ensures
            match r {
                Ok(v) => person_name_violation(name@) is None && v@ == name@,
                Err(e) => person_name_violation(name@) == Some(e@),
            },
    {
        if name.as_str().is_empty() {
            Err(NAME_EMPTY_MESSAGE)
        } else if name.as_str().unicode_len() > MAX_NAME_CHARS {
            Err(NAME_TOO_LONG_MESSAGE)
        } else if search_decimal_digit(name.as_str()) {
            Err(NAME_DIGITS_MESSAGE)
        } else if search_name_forbidden_char(name.as_str()) {
            Err(NAME_CHARACTERS_MESSAGE)
        } else {
            Ok(ConstrainedIndividualNameString100(name))
        }
    }

}

/// An email address of the shape `local@domain.tld`.
#[derive(Debug, PartialEq, Eq)]
pub struct EmailAddress(String);

impl View for EmailAddress {
    type V = Seq<char>;

    closed spec fn view(&self) -> Seq<char> {
        self.0@
    }
}

impl EmailAddress {
    #[verifier::type_invariant]
    closed spec fn inv(&self) -> bool {
        email_violation(self.0@) is None
    }

    pub fn value(&self) -> (r: &str)
        ensures
            r@ == self@,
            email_violation(r@) is None,
    {
        proof {
            use_type_invariant(self);
        }
        self.0.as_str()
    }

    pub fn try_from(email_address: String) -> (r: Result<Self, &'static str>)
        ensures
            match r {
                Ok(v) => email_violation(email_address@) is None && v@ == email_address@,
                Err(e) => email_violation(email_address@) == Some(e@),
            },
    {
        if !match_email_shape(email_address.as_str()) {
            Err(EMAIL_MESSAGE)
        } else {
            Ok(EmailAddress(email_address))
        }
    }

}

/// A UK postcode, with or without the space between its two halves.
#[derive(Debug, PartialEq, Eq)]
pub struct Postcode(String);

impl View for Postcode {
    type V = Seq<char>;

    closed spec fn view(&self) -> Seq<char> {
        self.0@
    }
}

impl Postcode {
    #[verifier::type_invariant]
    closed spec fn inv(&self) -> bool {
        postcode_violation(self.0@) is None
    }

    pub fn value(&self) -> (r: &str)
        ensures
            r@ == self@,
            postcode_violation(r@) is None,
    {
        proof {
            use_type_invariant(self);
        }
        self.0.as_str()
    }

    pub fn new(postcode: String) -> (r: Result<Self, String>)
        ensures
            match r {
                Ok(v) => postcode_violation(postcode@) is None && v@ == postcode@,
                Err(e) => postcode_violation(postcode@) == Some(e@),
            },
    {
        if postcode.as_str().is_empty() {
            Err(String::from_str(POSTCODE_EMPTY_MESSAGE))
        } else if !match_uk_postcode_shape(postcode.as_str()) {
            Err(String::from_str(POSTCODE_FORMAT_MESSAGE))
        } else {
            Ok(Postcode(postcode))
        }
    }

}

/// The legal name of a trust or a company.
#[derive(Debug, PartialEq, Eq)]
pub struct ConstainedTrustOrCompanyNameString200(String);

impl View for ConstainedTrustOrCompanyNameString200 {
    type V = Seq<char>;

    closed spec fn view(&self) -> Seq<char> {
        self.0@
    }
}

impl ConstainedTrustOrCompanyNameString200 {
    #[verifier::type_invariant]
    closed spec fn inv(&self) -> bool {
        entity_name_violation(self.0@) is None
    }

    pub fn value(&self) -> (r: &str)
        ensures
            r@ == self@,
            entity_name_violation(r@) is None,
    {
        proof {
            use_type_invariant(self);
        }
        self.0.as_str()
    }

    pub fn try_from(trust_or_company_name: String) -> (r: Result<Self, &'static str>)
        ensures
            match r {
                Ok(v) => entity_name_violation(trust_or_company_name@) is None && v@
                    == trust_or_company_name@,
                Err(e) => entity_name_violation(trust_or_company_name@) == Some(e@),
            },
    {
        if trust_or_company_name.as_str().is_empty() {
            Err(NAME_EMPTY_MESSAGE)
        } else if trust_or_company_name.as_str().unicode_len() > MAX_ENTITY_NAME_CHARS {
            Err(NAME_TOO_LONG_MESSAGE)
        } else if search_entity_name_forbidden_char(trust_or_company_name.as_str()) {
            Err(ENTITY_NAME_CHARACTERS_MESSAGE)
        } else {
            Ok(ConstainedTrustOrCompanyNameString200(trust_or_company_name))
        }
    }

}

} // verus!
