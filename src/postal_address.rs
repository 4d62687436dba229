//! A full UK postal address assembled from independently checked parts.
use vstd::prelude::*;

use crate::simple_types::{
    address_fragment_violation, postcode_violation, ConstrainedAddressString100, Postcode,
};
use crate::text_rules::{int_parse_error_text, parse_i32, parsed_i32};

verus! {

pub const ADDRESS_REQUIRED_MESSAGE: &'static str =
    "Address line one, city and postcode must not be empty.";

/// The parts of a postal address as text; the optional ones are absent or hold
/// at least one character.
pub struct PostalAddressView {
    pub house_name: Option<Seq<char>>,
    pub house_number: Option<i32>,
    pub address_line_one: Seq<char>,
    pub address_line_two: Option<Seq<char>>,
    pub address_line_three: Option<Seq<char>>,
    pub address_line_four: Option<Seq<char>>,
    pub city: Seq<char>,
    pub county: Option<Seq<char>>,
    pub postcode: Seq<char>,
    pub country: Option<Seq<char>>,
}

/// The text of an optional value.
pub open spec fn text_of<T: View<V = Seq<char>>>(o: Option<T>) -> Option<Seq<char>> {
    match o {
        Some(t) => Some(t@),
        None => None,
    }
}

/// An optional text with the empty text read as absent.
pub open spec fn non_empty_text(o: Option<String>) -> Option<Seq<char>> {
    match o {
        Some(t) => if t@.len() == 0 {
            None
        } else {
            Some(t@)
        },
        None => None,
    }
}

pub open spec fn optional_fragment_violation(o: Option<Seq<char>>) -> Option<Seq<char>> {
    match o {
        Some(t) => address_fragment_violation(t),
        None => None,
    }
}

pub open spec fn is_valid_optional_fragment(o: Option<Seq<char>>) -> bool {
    match o {
        Some(t) => t.len() > 0 && address_fragment_violation(t) is None,
        None => true,
    }
}

/// The house number that an optional text gives, or the description of why it
/// is not a number.
pub open spec fn house_number_outcome(o: Option<Seq<char>>) -> Result<Option<i32>, Seq<char>> {
    match o {
        Some(t) => match parsed_i32(t) {
            Some(v) => Ok(Some(v)),
            None => Err(int_parse_error_text(t)),
        },
        None => Ok(None),
    }
}

/// Every part of the address satisfies its rules, and the mandatory parts are
/// not empty.
pub open spec fn is_valid_postal_address(a: PostalAddressView) -> bool {
    &&& a.address_line_one.len() > 0
    &&& address_fragment_violation(a.address_line_one) is None
    &&& a.city.len() > 0
    &&& address_fragment_violation(a.city) is None
    &&& postcode_violation(a.postcode) is None
    &&& is_valid_optional_fragment(a.house_name)
    &&& is_valid_optional_fragment(a.address_line_two)
    &&& is_valid_optional_fragment(a.address_line_three)
    &&& is_valid_optional_fragment(a.address_line_four)
    &&& is_valid_optional_fragment(a.county)
    &&& is_valid_optional_fragment(a.country)
}

/// What building an address from these parts gives, the optional parts being
/// already read with the empty text as absent. The mandatory parts are checked
/// for emptiness first, then the postcode, then each part in turn; the first
/// failure is the result.
pub open spec fn postal_address_outcome(
    house_name: Option<Seq<char>>,
    house_number: Option<Seq<char>>,
    address_line_one: Seq<char>,
    address_line_two: Option<Seq<char>>,
    address_line_three: Option<Seq<char>>,
    address_line_four: Option<Seq<char>>,
    city: Seq<char>,
    county: Option<Seq<char>>,
    postcode: Seq<char>,
    country: Option<Seq<char>>,
) -> Result<PostalAddressView, Seq<char>> {
    if address_line_one.len() == 0 || city.len() == 0 || postcode.len() == 0 {
        Err(ADDRESS_REQUIRED_MESSAGE@)
    } else if postcode_violation(postcode) is Some {
        Err(postcode_violation(postcode)->Some_0)
    } else if optional_fragment_violation(house_name) is Some {
        Err(optional_fragment_violation(house_name)->Some_0)
    } else if house_number_outcome(house_number) is Err {
        Err(house_number_outcome(house_number)->Err_0)
    } else if address_fragment_violation(address_line_one) is Some {
        Err(address_fragment_violation(address_line_one)->Some_0)
    } else if optional_fragment_violation(address_line_two) is Some {
        Err(optional_fragment_violation(address_line_two)->Some_0)
    } else if optional_fragment_violation(address_line_three) is Some {
        Err(optional_fragment_violation(address_line_three)->Some_0)
    } else if optional_fragment_violation(address_line_four) is Some {
        Err(optional_fragment_violation(address_line_four)->Some_0)
    } else if address_fragment_violation(city) is Some {
        Err(address_fragment_violation(city)->Some_0)
    } else if optional_fragment_violation(county) is Some {
        Err(optional_fragment_violation(county)->Some_0)
    } else if optional_fragment_violation(country) is Some {
        Err(optional_fragment_violation(country)->Some_0)
    } else {
        Ok(
            PostalAddressView {
                house_name,
                house_number: house_number_outcome(house_number)->Ok_0,
                address_line_one,
                address_line_two,
                address_line_three,
                address_line_four,
                city,
                county,
                postcode,
                country,
            },
        )
    }
}

/// Reads an empty optional text as absent.
fn drop_empty(o: Option<String>) -> (r: Option<String>)
    ensures
        text_of(r) == non_empty_text(o),
{
    match o {
        Some(t) => if t.as_str().is_empty() {
            None
        } else {
            Some(t)
        },
        None => None,
    }
}

fn optional_fragment(o: Option<String>) -> (r: Result<Option<ConstrainedAddressString100>, String>)
    ensures
        match r {
            Ok(v) => optional_fragment_violation(text_of(o)) is None && text_of(v) == text_of(o),
            Err(e) => optional_fragment_violation(text_of(o)) == Some(e@),
        },
{
    match o {
        Some(t) => match ConstrainedAddressString100::try_from(t) {
            Ok(f) => Ok(Some(f)),
            Err(e) => Err(String::from_str(e)),
        },
        None => Ok(None),
    }
}

fn optional_house_number(o: Option<String>) -> (r: Result<Option<i32>, String>)
    ensures
        match r {
            Ok(v) => house_number_outcome(text_of(o)) == Ok::<Option<i32>, Seq<char>>(v),
            Err(e) => house_number_outcome(text_of(o)) == Err::<Option<i32>, Seq<char>>(e@),
        },
{
    match o {
        Some(t) => match parse_i32(t.as_str()) {
            Ok(v) => Ok(Some(v)),
            Err(e) => Err(e),
        },
        None => Ok(None),
    }
}

/// A full UK postal address whose every part satisfies its rules.
#[derive(Debug, PartialEq, Eq)]
pub struct PostalAddress {
    house_name: Option<ConstrainedAddressString100>,
    house_number: Option<i32>,
    address_line_one: ConstrainedAddressString100,
    address_line_two: Option<ConstrainedAddressString100>,
    address_line_three: Option<ConstrainedAddressString100>,
    address_line_four: Option<ConstrainedAddressString100>,
    city: ConstrainedAddressString100,
    county: Option<ConstrainedAddressString100>,
    postcode: Postcode,
    country: Option<ConstrainedAddressString100>,
}

impl View for PostalAddress {
    type V = PostalAddressView;

    closed spec fn view(&self) -> PostalAddressView {
        PostalAddressView {
            house_name: text_of(self.house_name),
            house_number: self.house_number,
            address_line_one: self.address_line_one@,
            address_line_two: text_of(self.address_line_two),
            address_line_three: text_of(self.address_line_three),
            address_line_four: text_of(self.address_line_four),
            city: self.city@,
            county: text_of(self.county),
            postcode: self.postcode@,
            country: text_of(self.country),
        }
    }
}

impl PostalAddress {
    #[verifier::type_invariant]
    closed spec fn inv(&self) -> bool {
        is_valid_postal_address(self@)
    }

    /// Builds an address from its parts. An optional part that is empty counts as
    /// absent; the house number, where present, must be an integer.
    pub fn new(
        house_name: Option<String>,
        house_number: Option<String>,
        address_line_one: String,
        address_line_two: Option<String>,
        address_line_three: Option<String>,
        address_line_four: Option<String>,
        city: String,
        county: Option<String>,
        postcode: String,
        country: Option<String>,
    ) -> (r: Result<Self, String>)
        ensures
            match r {
                Ok(a) => is_valid_postal_address(a@) && postal_address_outcome(
                    non_empty_text(house_name),
                    non_empty_text(house_number),
                    address_line_one@,
                    non_empty_text(address_line_two),
                    non_empty_text(address_line_three),
                    non_empty_text(address_line_four),
                    city@,
                    non_empty_text(county),
                    postcode@,
                    non_empty_text(country),
                ) == Ok::<PostalAddressView, Seq<char>>(a@),
                Err(e) => postal_address_outcome(
                    non_empty_text(house_name),
                    non_empty_text(house_number),
                    address_line_one@,
                    non_empty_text(address_line_two),
                    non_empty_text(address_line_three),
                    non_empty_text(address_line_four),
                    city@,
                    non_empty_text(county),
                    postcode@,
                    non_empty_text(country),
                ) == Err::<PostalAddressView, Seq<char>>(e@),
            },
    {
        let house_name = drop_empty(house_name);
        let house_number = drop_empty(house_number);
        let address_line_two = drop_empty(address_line_two);
        let address_line_three = drop_empty(address_line_three);
        let address_line_four = drop_empty(address_line_four);
        let county = drop_empty(county);
        let country = drop_empty(country);
        if address_line_one.as_str().is_empty() || city.as_str().is_empty()
            || postcode.as_str().is_empty() {
            return Err(String::from_str(ADDRESS_REQUIRED_MESSAGE));
        }
        let postcode = match Postcode::new(postcode) {
            Ok(p) => p,
            Err(e) => return Err(e),
        };
        let house_name = match optional_fragment(house_name) {
            Ok(v) => v,
            Err(e) => return Err(e),
        };
        let house_number = match optional_house_number(house_number) {
            Ok(v) => v,
            Err(e) => return Err(e),
        };
        let address_line_one = match ConstrainedAddressString100::try_from(address_line_one) {
            Ok(v) => v,
            Err(e) => return Err(String::from_str(e)),
        };
        let address_line_two = match optional_fragment(address_line_two) {
            Ok(v) => v,
            Err(e) => return Err(e),
        };
        let address_line_three = match optional_fragment(address_line_three) {
            Ok(v) => v,
            Err(e) => return Err(e),
        };
        let address_line_four = match optional_fragment(address_line_four) {
            Ok(v) => v,
            Err(e) => return Err(e),
        };
        let city = match ConstrainedAddressString100::try_from(city) {
            Ok(v) => v,
            Err(e) => return Err(String::from_str(e)),
        };
        let county = match optional_fragment(county) {
            Ok(v) => v,
            Err(e) => return Err(e),
        };
        let country = match optional_fragment(country) {
            Ok(v) => v,
            Err(e) => return Err(e),
        };
        Ok(
            PostalAddress {
                house_name,
                house_number,
                address_line_one,
                address_line_two,
                address_line_three,
                address_line_four,
                city,
                county,
                postcode,
                country,
            },
        )
    }

    pub fn house_name(&self) -> (r: Option<&ConstrainedAddressString100>)
        ensures
            text_of(r) == self@.house_name,
    {
        self.house_name.as_ref()
    }

    pub fn house_number(&self) -> (r: Option<&i32>)
        ensures
            match r {
                Some(n) => self@.house_number == Some(*n),
                None => self@.house_number is None,
            },
    {
        self.house_number.as_ref()
    }

    pub fn address_line_one(&self) -> (r: &ConstrainedAddressString100)
        ensures
            r@ == self@.address_line_one,
    {
        &self.address_line_one
    }

    pub fn address_line_two(&self) -> (r: Option<&ConstrainedAddressString100>)
        ensures
            text_of(r) == self@.address_line_two,
    {
        self.address_line_two.as_ref()
    }

    pub fn address_line_three(&self) -> (r: Option<&ConstrainedAddressString100>)
        ensures
            text_of(r) == self@.address_line_three,
    {
        self.address_line_three.as_ref()
    }

    pub fn address_line_four(&self) -> (r: Option<&ConstrainedAddressString100>)
        ensures
            text_of(r) == self@.address_line_four,
    {
        self.address_line_four.as_ref()
    }

    pub fn city(&self) -> (r: &ConstrainedAddressString100)
        ensures
            r@ == self@.city,
    {
        &self.city
    }

    pub fn county(&self) -> (r: Option<&ConstrainedAddressString100>)
        ensures
            text_of(r) == self@.county,
    {
        self.county.as_ref()
    }

    pub fn postcode(&self) -> (r: &Postcode)
        ensures
            r@ == self@.postcode,
    {
        &self.postcode
    }

    pub fn country(&self) -> (r: Option<&ConstrainedAddressString100>)
        ensures
            text_of(r) == self@.country,
    {
        self.country.as_ref()
    }

    /// Every address that exists satisfies the address rules.
    pub fn check_valid(&self)
        ensures
            is_valid_postal_address(self@),
    {
        proof {
            use_type_invariant(self);
        }
    }
}

} // verus!
