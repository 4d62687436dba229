//! Per-role contact records: how to reach one kind of client representative
//! (an individual, joint individuals, trustees, directors) by one channel
//! (electronic or post). Each is built only from parts that satisfy their rules.
use vstd::prelude::*;

use crate::error::{ErrorKind, ValidationError};
use crate::postal_address::{postal_address_outcome, PostalAddress, PostalAddressView};
use crate::simple_types::{
    email_violation, entity_name_violation, person_name_violation,
    ConstainedTrustOrCompanyNameString200, ConstrainedIndividualNameString100, EmailAddress,
};

verus! {

pub const TRUSTEES_MESSAGE: &'static str = "There must be at least two trustees.";

pub const DIRECTORS_MESSAGE: &'static str = "There must be at least two directors.";

/// The fewest parties that a multi-party role may have.
pub const MIN_PARTIES: usize = 2;

/// A rule violation reported under the given kind.
pub open spec fn tagged(kind: ErrorKind, v: Option<Seq<char>>) -> Option<(ErrorKind, Seq<char>)> {
    match v {
        Some(m) => Some((kind, m)),
        None => None,
    }
}

/// The earlier of two checks that fails, if either does.
pub open spec fn first_failure(
    a: Option<(ErrorKind, Seq<char>)>,
    b: Option<(ErrorKind, Seq<char>)>,
) -> Option<(ErrorKind, Seq<char>)> {
    if a is Some {
        a
    } else {
        b
    }
}

/// The empty text read as absent.
pub open spec fn present_text(s: Seq<char>) -> Option<Seq<char>> {
    if s.len() == 0 {
        None
    } else {
        Some(s)
    }
}

/// What building an address from its parts as plain texts gives, an empty
/// optional part counting as absent.
pub open spec fn address_outcome_from_texts(
    house_name: Seq<char>,
    house_number: Seq<char>,
    address_line_one: Seq<char>,
    address_line_two: Seq<char>,
    address_line_three: Seq<char>,
    address_line_four: Seq<char>,
    city: Seq<char>,
    county: Seq<char>,
    postcode: Seq<char>,
    country: Seq<char>,
) -> Result<PostalAddressView, Seq<char>> {
    postal_address_outcome(
        present_text(house_name),
        present_text(house_number),
        address_line_one,
        present_text(address_line_two),
        present_text(address_line_three),
        present_text(address_line_four),
        city,
        present_text(county),
        postcode,
        present_text(country),
    )
}

/// An address that cannot be assembled is reported as invalid input.
pub open spec fn address_failure(o: Result<PostalAddressView, Seq<char>>) -> Option<
    (ErrorKind, Seq<char>),
> {
    match o {
        Ok(_) => None,
        Err(m) => Some((ErrorKind::InvalidInput, m)),
    }
}

pub open spec fn name_failure(s: Seq<char>) -> Option<(ErrorKind, Seq<char>)> {
    tagged(ErrorKind::InvalidName, person_name_violation(s))
}

pub open spec fn email_failure(s: Seq<char>) -> Option<(ErrorKind, Seq<char>)> {
    tagged(ErrorKind::InvalidEmail, email_violation(s))
}

pub open spec fn entity_name_failure(s: Seq<char>) -> Option<(ErrorKind, Seq<char>)> {
    tagged(ErrorKind::InvalidName, entity_name_violation(s))
}

/// A name and an email address, checked in that order.
pub open spec fn name_and_email_failure(name: Seq<char>, email: Seq<char>) -> Option<
    (ErrorKind, Seq<char>),
> {
    first_failure(name_failure(name), email_failure(email))
}

/// Too few parties for a multi-party role.
pub open spec fn party_count_failure(count: int, message: Seq<char>) -> Option<
    (ErrorKind, Seq<char>),
> {
    if count < MIN_PARTIES {
        Some((ErrorKind::EmptyInput, message))
    } else {
        None
    }
}

pub(crate) fn checked_person_name(s: String) -> (r: Result<
    ConstrainedIndividualNameString100,
    ValidationError,
>)
    ensures
        match r {
            Ok(v) => name_failure(s@) is None && v@ == s@,
            Err(e) => name_failure(s@) == Some(e@),
        },
{
    match ConstrainedIndividualNameString100::try_from(s) {
        Ok(v) => Ok(v),
        Err(m) => Err(ValidationError::InvalidName(String::from_str(m))),
    }
}

pub(crate) fn checked_email(s: String) -> (r: Result<EmailAddress, ValidationError>)
    ensures
        match r {
            Ok(v) => email_failure(s@) is None && v@ == s@,
            Err(e) => email_failure(s@) == Some(e@),
        },
{
    match EmailAddress::try_from(s) {
        Ok(v) => Ok(v),
        Err(m) => Err(ValidationError::InvalidEmail(String::from_str(m))),
    }
}

pub(crate) fn checked_entity_name(s: String) -> (r: Result<
    ConstainedTrustOrCompanyNameString200,
    ValidationError,
>)
    ensures
        match r {
            Ok(v) => entity_name_failure(s@) is None && v@ == s@,
            Err(e) => entity_name_failure(s@) == Some(e@),
        },
{
    match ConstainedTrustOrCompanyNameString200::try_from(s) {
        Ok(v) => Ok(v),
        Err(m) => Err(ValidationError::InvalidName(String::from_str(m))),
    }
}

fn present(s: String) -> (r: Option<String>)
    ensures
        match r {
            Some(t) => present_text(s@) == Some(t@),
            None => present_text(s@) is None,
        },
{
    if s.as_str().is_empty() {
        None
    } else {
        Some(s)
    }
}

/// Builds an address from its parts as plain texts, an empty optional part
/// counting as absent; a failure is reported as invalid input.
pub(crate) fn address_from_texts(
    house_name: String,
    house_number: String,
    address_line_one: String,
    address_line_two: String,
    address_line_three: String,
    address_line_four: String,
    city: String,
    county: String,
    postcode: String,
    country: String,
) -> (r: Result<PostalAddress, ValidationError>)
    ensures
        match r {
            Ok(a) => address_outcome_from_texts(
                house_name@,
                house_number@,
                address_line_one@,
                address_line_two@,
                address_line_three@,
                address_line_four@,
                city@,
                county@,
                postcode@,
                country@,
            ) == Ok::<PostalAddressView, Seq<char>>(a@),
            Err(e) => address_failure(
                address_outcome_from_texts(
                    house_name@,
                    house_number@,
                    address_line_one@,
                    address_line_two@,
                    address_line_three@,
                    address_line_four@,
                    city@,
                    county@,
                    postcode@,
                    country@,
                ),
            ) == Some(e@),
        },
{
    let house_name = present(house_name);
    let house_number = present(house_number);
    let address_line_two = present(address_line_two);
    let address_line_three = present(address_line_three);
    let address_line_four = present(address_line_four);
    let county = present(county);
    let country = present(country);
    match PostalAddress::new(
        house_name,
        house_number,
        address_line_one,
        address_line_two,
        address_line_three,
        address_line_four,
        city,
        county,
        postcode,
        country,
    ) {
        Ok(a) => Ok(a),
        Err(m) => Err(ValidationError::InvalidInput(m)),
    }
}

/// Two individuals reached by email.
#[derive(Debug, PartialEq, Eq)]
pub struct ValidatedJointIndividualsElectronicContact {
    primary_contact_first_name: ConstrainedIndividualNameString100,
    individual_two_first_name: ConstrainedIndividualNameString100,
    primary_contact_email_address: EmailAddress,
    individual_two_email_address: EmailAddress,
}

impl View for ValidatedJointIndividualsElectronicContact {
    /// The two first names, then the two email addresses.
    type V = (Seq<char>, Seq<char>, Seq<char>, Seq<char>);

    closed spec fn view(&self) -> (Seq<char>, Seq<char>, Seq<char>, Seq<char>) {
        (
            self.primary_contact_first_name@,
            self.individual_two_first_name@,
            self.primary_contact_email_address@,
            self.individual_two_email_address@,
        )
    }
}

/// The first failing check of a joint electronic contact: both names, then both
/// email addresses.
pub open spec fn joint_individuals_electronic_failure(
    primary_contact_first_name: Seq<char>,
    individual_two_first_name: Seq<char>,
    primary_contact_email_address: Seq<char>,
    individual_two_email_address: Seq<char>,
) -> Option<(ErrorKind, Seq<char>)> {
    first_failure(
        name_failure(primary_contact_first_name),
        first_failure(
            name_failure(individual_two_first_name),
            first_failure(
                email_failure(primary_contact_email_address),
                email_failure(individual_two_email_address),
            ),
        ),
    )
}

impl ValidatedJointIndividualsElectronicContact {
    pub fn validate(
        primary_contact_first_name: String,
        individual_two_first_name: String,
        primary_contact_email_address: String,
        individual_two_email_address: String,
    ) -> (r: Result<Self, ValidationError>)
        ensures
            match r {
                Ok(v) => joint_individuals_electronic_failure(
                    primary_contact_first_name@,
                    individual_two_first_name@,
                    primary_contact_email_address@,
                    individual_two_email_address@,
                ) is None && v@ == (
                    primary_contact_first_name@,
                    individual_two_first_name@,
                    primary_contact_email_address@,
                    individual_two_email_address@,
                ),
                Err(e) => joint_individuals_electronic_failure(
                    primary_contact_first_name@,
                    individual_two_first_name@,
                    primary_contact_email_address@,
                    individual_two_email_address@,
                ) == Some(e@),
            },
    {
        let primary_contact_first_name = checked_person_name(primary_contact_first_name)?;
        let individual_two_first_name = checked_person_name(individual_two_first_name)?;
        let primary_contact_email_address = checked_email(primary_contact_email_address)?;
        let individual_two_email_address = checked_email(individual_two_email_address)?;
        Ok(
            ValidatedJointIndividualsElectronicContact {
                primary_contact_first_name,
                individual_two_first_name,
                primary_contact_email_address,
                individual_two_email_address,
            },
        )
    }

    pub fn primary_contact_first_name(&self) -> (r: &ConstrainedIndividualNameString100)
        ensures
            r@ == self@.0,
    {
        &self.primary_contact_first_name
    }

    pub fn individual_two_first_name(&self) -> (r: &ConstrainedIndividualNameString100)
        ensures
            r@ == self@.1,
    {
        &self.individual_two_first_name
    }

    pub fn primary_contact_email_address(&self) -> (r: &EmailAddress)
        ensures
            r@ == self@.2,
    {
        &self.primary_contact_email_address
    }

    pub fn individual_two_email_address(&self) -> (r: &EmailAddress)
        ensures
            r@ == self@.3,
    {
        &self.individual_two_email_address
    }
}

/// One individual reached by email.
#[derive(Debug, PartialEq, Eq)]
pub struct ValidatedSingleIndividualElectronicContact {
    first_name: ConstrainedIndividualNameString100,
    email_address: EmailAddress,
}

impl View for ValidatedSingleIndividualElectronicContact {
    /// The first name, then the email address.
    type V = (Seq<char>, Seq<char>);

    closed spec fn view(&self) -> (Seq<char>, Seq<char>) {
        (self.first_name@, self.email_address@)
    }
}

impl ValidatedSingleIndividualElectronicContact {
    pub fn validate(first_name: String, email_address: String) -> (r: Result<
        Self,
        ValidationError,
    >)
        ensures
            match r {
                Ok(v) => name_and_email_failure(first_name@, email_address@) is None && v@ == (
                    first_name@,
                    email_address@,
                ),
                Err(e) => name_and_email_failure(first_name@, email_address@) == Some(e@),
            },
    {
        let first_name = checked_person_name(first_name)?;
        let email_address = checked_email(email_address)?;
        Ok(ValidatedSingleIndividualElectronicContact { first_name, email_address })
    }

    pub fn first_name(&self) -> (r: &ConstrainedIndividualNameString100)
        ensures
            r@ == self@.0,
    {
        &self.first_name
    }

    pub fn email_address(&self) -> (r: &EmailAddress)
        ensures
            r@ == self@.1,
    {
        &self.email_address
    }
}

/// Two individuals reached by post at one address.
#[derive(Debug, PartialEq, Eq)]
pub struct ValidatedJointIndividualsPostContact {
    primary_contact_first_name: ConstrainedIndividualNameString100,
    individual_two_first_name: ConstrainedIndividualNameString100,
    postal_address: PostalAddress,
}

impl View for ValidatedJointIndividualsPostContact {
    /// The two first names, then the address.
    type V = (Seq<char>, Seq<char>, PostalAddressView);

    closed spec fn view(&self) -> (Seq<char>, Seq<char>, PostalAddressView) {
        (self.primary_contact_first_name@, self.individual_two_first_name@, self.postal_address@)
    }
}

impl ValidatedJointIndividualsPostContact {
    /// Checks both names, then builds the address from its parts, an empty
    /// optional part counting as absent.
    pub fn validate(
        primary_contact_first_name: String,
        individual_two_first_name: String,
        house_name: String,
        house_number: String,
        address_line_one: String,
        address_line_two: String,
        address_line_three: String,
        address_line_four: String,
        city: String,
        county: String,
        postcode: String,
        country: String,
    ) -> (r: Result<Self, ValidationError>)
        ensures
            ({
                let address = address_outcome_from_texts(
                    house_name@,
                    house_number@,
                    address_line_one@,
                    address_line_two@,
                    address_line_three@,
                    address_line_four@,
                    city@,
                    county@,
                    postcode@,
                    country@,
                );
                let failure = first_failure(
                    name_failure(primary_contact_first_name@),
                    first_failure(name_failure(individual_two_first_name@), address_failure(address)),
                );
                match r {
                    Ok(v) => failure is None && v@ == (
                        primary_contact_first_name@,
                        individual_two_first_name@,
                        address->Ok_0,
                    ),
                    Err(e) => failure == Some(e@),
                }
            }),
    {
        let primary_contact_first_name = checked_person_name(primary_contact_first_name)?;
        let individual_two_first_name = checked_person_name(individual_two_first_name)?;
        let postal_address = address_from_texts(
            house_name,
            house_number,
            address_line_one,
            address_line_two,
            address_line_three,
            address_line_four,
            city,
            county,
            postcode,
            country,
        )?;
        Ok(
            ValidatedJointIndividualsPostContact {
                primary_contact_first_name,
                individual_two_first_name,
                postal_address,
            },
        )
    }

    pub fn primary_contact_first_name(&self) -> (r: &ConstrainedIndividualNameString100)
        ensures
            r@ == self@.0,
    {
        &self.primary_contact_first_name
    }

    pub fn individual_two_first_name(&self) -> (r: &ConstrainedIndividualNameString100)
        ensures
            r@ == self@.1,
    {
        &self.individual_two_first_name
    }

    pub fn postal_address(&self) -> (r: &PostalAddress)
        ensures
            r@ == self@.2,
    {
        &self.postal_address
    }
}

/// One individual reached by post.
#[derive(Debug, PartialEq, Eq)]
pub struct SingleIndividualPostContact {
    contact_first_name: ConstrainedIndividualNameString100,
    postal_address: PostalAddress,
}

impl View for SingleIndividualPostContact {
    /// The first name, then the address.
    type V = (Seq<char>, PostalAddressView);

    closed spec fn view(&self) -> (Seq<char>, PostalAddressView) {
        (self.contact_first_name@, self.postal_address@)
    }
}

impl SingleIndividualPostContact {
    pub fn validate(contact_first_name: String, postal_address: PostalAddress) -> (r: Result<
        Self,
        ValidationError,
    >)
        ensures
            match r {
                Ok(v) => name_failure(contact_first_name@) is None && v@ == (
                    contact_first_name@,
                    postal_address@,
                ),
                Err(e) => name_failure(contact_first_name@) == Some(e@),
            },
    {
        let contact_first_name = checked_person_name(contact_first_name)?;
        Ok(SingleIndividualPostContact { contact_first_name, postal_address })
    }

    pub fn contact_first_name(&self) -> (r: &ConstrainedIndividualNameString100)
        ensures
            r@ == self@.0,
    {
        &self.contact_first_name
    }

    pub fn postal_address(&self) -> (r: &PostalAddress)
        ensures
            r@ == self@.1,
    {
        &self.postal_address
    }
}

/// One trustee of a trust, reached by email.
#[derive(Debug, PartialEq, Eq)]
pub struct TrusteeElectronicContact {
    first_name: ConstrainedIndividualNameString100,
    email_address: EmailAddress,
}

impl View for TrusteeElectronicContact {
    /// The first name, then the email address.
    type V = (Seq<char>, Seq<char>);

    closed spec fn view(&self) -> (Seq<char>, Seq<char>) {
        (self.first_name@, self.email_address@)
    }
}

impl TrusteeElectronicContact {
    pub fn validate(first_name: String, email_address: String) -> (r: Result<
        Self,
        ValidationError,
    >)
        ensures
            match r {
                Ok(v) => name_and_email_failure(first_name@, email_address@) is None && v@ == (
                    first_name@,
                    email_address@,
                ),
                Err(e) => name_and_email_failure(first_name@, email_address@) == Some(e@),
            },
    {
        let first_name = checked_person_name(first_name)?;
        let email_address = checked_email(email_address)?;
        Ok(TrusteeElectronicContact { first_name, email_address })
    }

    pub fn first_name(&self) -> (r: &ConstrainedIndividualNameString100)
        ensures
            r@ == self@.0,
    {
        &self.first_name
    }

    pub fn email_address(&self) -> (r: &EmailAddress)
        ensures
            r@ == self@.1,
    {
        &self.email_address
    }
}

pub open spec fn trustee_electronic_views(s: Seq<TrusteeElectronicContact>) -> Seq<
    (Seq<char>, Seq<char>),
> {
    s.map_values(|t: TrusteeElectronicContact| t@)
}

/// The trustees of a trust, at least two, each reached by email.
#[derive(Debug, PartialEq, Eq)]
pub struct MultipleTrusteesElectronicContact {
    trust_name: ConstainedTrustOrCompanyNameString200,
    trustees: Vec<TrusteeElectronicContact>,
}

impl View for MultipleTrusteesElectronicContact {
    /// The trust's name, then each trustee in order.
    type V = (Seq<char>, Seq<(Seq<char>, Seq<char>)>);

    closed spec fn view(&self) -> (Seq<char>, Seq<(Seq<char>, Seq<char>)>) {
        (self.trust_name@, trustee_electronic_views(self.trustees@))
    }
}

impl MultipleTrusteesElectronicContact {
    #[verifier::type_invariant]
    closed spec fn inv(&self) -> bool {
        self.trustees@.len() >= MIN_PARTIES
    }

    pub fn validate(
        trust_name: ConstainedTrustOrCompanyNameString200,
        trustees: Vec<TrusteeElectronicContact>,
    ) -> (r: Result<Self, ValidationError>)
        ensures
            match r {
                Ok(v) => party_count_failure(trustees@.len() as int, TRUSTEES_MESSAGE@) is None
                    && v@ == (trust_name@, trustee_electronic_views(trustees@)),
                Err(e) => party_count_failure(trustees@.len() as int, TRUSTEES_MESSAGE@) == Some(
                    e@,
                ),
            },
    {
        if trustees.len() < MIN_PARTIES {
            Err(ValidationError::EmptyInput(String::from_str(TRUSTEES_MESSAGE)))
        } else {
            Ok(MultipleTrusteesElectronicContact { trust_name, trustees })
        }
    }

    pub fn trustees(&self) -> (r: &Vec<TrusteeElectronicContact>)
        ensures
            trustee_electronic_views(r@) == self@.1,
            r@.len() >= MIN_PARTIES,
    {
        proof {
            use_type_invariant(self);
        }
        &self.trustees
    }
}

/// The principal trustee of a trust, reached by email.
#[derive(Debug, PartialEq, Eq)]
pub struct PrimaryTrusteeElectronicContact {
    trust_name: ConstainedTrustOrCompanyNameString200,
    primary_trustee_first_name: ConstrainedIndividualNameString100,
    primary_trustee_email_address: EmailAddress,
}

impl View for PrimaryTrusteeElectronicContact {
    /// The trust's name, the trustee's first name, then the email address.
    type V = (Seq<char>, Seq<char>, Seq<char>);

    closed spec fn view(&self) -> (Seq<char>, Seq<char>, Seq<char>) {
        (self.trust_name@, self.primary_trustee_first_name@, self.primary_trustee_email_address@)
    }
}

impl PrimaryTrusteeElectronicContact {
    pub fn validate(
        trust_name: String,
        primary_trustee_first_name: String,
        primary_trustee_email_address: String,
    ) -> (r: Result<Self, ValidationError>)
        ensures
            ({
                let failure = first_failure(
                    entity_name_failure(trust_name@),
                    name_and_email_failure(
                        primary_trustee_first_name@,
                        primary_trustee_email_address@,
                    ),
                );
                match r {
                    Ok(v) => failure is None && v@ == (
                        trust_name@,
                        primary_trustee_first_name@,
                        primary_trustee_email_address@,
                    ),
                    Err(e) => failure == Some(e@),
                }
            }),
    {
        let trust_name = checked_entity_name(trust_name)?;
        let primary_trustee_first_name = checked_person_name(primary_trustee_first_name)?;
        let primary_trustee_email_address = checked_email(primary_trustee_email_address)?;
        Ok(
            PrimaryTrusteeElectronicContact {
                trust_name,
                primary_trustee_first_name,
                primary_trustee_email_address,
            },
        )
    }

    pub fn primary_trustee_first_name(&self) -> (r: &ConstrainedIndividualNameString100)
        ensures
            r@ == self@.1,
    {
        &self.primary_trustee_first_name
    }

    pub fn primary_trustee_email_address(&self) -> (r: &EmailAddress)
        ensures
            r@ == self@.2,
    {
        &self.primary_trustee_email_address
    }
}

/// One trustee of a trust, reached by post.
#[derive(Debug, PartialEq, Eq)]
pub struct TrusteePostContact {
    first_name: ConstrainedIndividualNameString100,
    postal_address: PostalAddress,
}

impl View for TrusteePostContact {
    /// The first name, then the address.
    type V = (Seq<char>, PostalAddressView);

    closed spec fn view(&self) -> (Seq<char>, PostalAddressView) {
        (self.first_name@, self.postal_address@)
    }
}

impl TrusteePostContact {
    pub fn validate(first_name: String, postal_address: PostalAddress) -> (r: Result<
        Self,
        ValidationError,
    >)
        ensures
            match r {
                Ok(v) => name_failure(first_name@) is None && v@ == (first_name@, postal_address@),
                Err(e) => name_failure(first_name@) == Some(e@),
            },
    {
        let first_name = checked_person_name(first_name)?;
        Ok(TrusteePostContact { first_name, postal_address })
    }

    pub fn first_name(&self) -> (r: &ConstrainedIndividualNameString100)
        ensures
            r@ == self@.0,
    {
        &self.first_name
    }

    pub fn postal_address(&self) -> (r: &PostalAddress)
        ensures
            r@ == self@.1,
    {
        &self.postal_address
    }
}

pub open spec fn trustee_post_views(s: Seq<TrusteePostContact>) -> Seq<
    (Seq<char>, PostalAddressView),
> {
    s.map_values(|t: TrusteePostContact| t@)
}

/// The trustees of a trust, at least two, each reached by post.
#[derive(Debug, PartialEq, Eq)]
pub struct MultipleTrusteesPostContact {
    trust_name: ConstainedTrustOrCompanyNameString200,
    trustees: Vec<TrusteePostContact>,
}

impl View for MultipleTrusteesPostContact {
    /// The trust's name, then each trustee in order.
    type V = (Seq<char>, Seq<(Seq<char>, PostalAddressView)>);

    closed spec fn view(&self) -> (Seq<char>, Seq<(Seq<char>, PostalAddressView)>) {
        (self.trust_name@, trustee_post_views(self.trustees@))
    }
}

impl MultipleTrusteesPostContact {
    #[verifier::type_invariant]
    closed spec fn inv(&self) -> bool {
        self.trustees@.len() >= MIN_PARTIES
    }

    /// Checks the trust's name, then that there are at least two trustees.
    pub fn validate(trust_name: String, trustees: Vec<TrusteePostContact>) -> (r: Result<
        Self,
        ValidationError,
    >)
        ensures
            ({
                let failure = first_failure(
                    entity_name_failure(trust_name@),
                    party_count_failure(trustees@.len() as int, TRUSTEES_MESSAGE@),
                );
                match r {
                    Ok(v) => failure is None && v@ == (trust_name@, trustee_post_views(trustees@)),
                    Err(e) => failure == Some(e@),
                }
            }),
    {
        let trust_name = checked_entity_name(trust_name)?;
        if trustees.len() < MIN_PARTIES {
            Err(ValidationError::EmptyInput(String::from_str(TRUSTEES_MESSAGE)))
        } else {
            Ok(MultipleTrusteesPostContact { trust_name, trustees })
        }
    }

    pub fn trustees(&self) -> (r: &Vec<TrusteePostContact>)
        ensures
            trustee_post_views(r@) == self@.1,
            r@.len() >= MIN_PARTIES,
    {
        proof {
            use_type_invariant(self);
        }
        &self.trustees
    }
}

/// The principal trustee of a trust, reached by post.
#[derive(Debug, PartialEq, Eq)]
pub struct PrimaryTrusteePostContact {
    trust_name: ConstainedTrustOrCompanyNameString200,
    primary_trustee_first_name: ConstrainedIndividualNameString100,
    primary_trustee_postal_address: PostalAddress,
}

impl View for PrimaryTrusteePostContact {
    /// The trust's name, the trustee's first name, then the address.
    type V = (Seq<char>, Seq<char>, PostalAddressView);

    closed spec fn view(&self) -> (Seq<char>, Seq<char>, PostalAddressView) {
        (self.trust_name@, self.primary_trustee_first_name@, self.primary_trustee_postal_address@)
    }
}

impl PrimaryTrusteePostContact {
    pub fn validate(
        trust_name: String,
        primary_trustee_first_name: String,
        primary_trustee_postal_address: PostalAddress,
    ) -> (r: Result<Self, ValidationError>)
        ensures
            ({
                let failure = first_failure(
                    entity_name_failure(trust_name@),
                    name_failure(primary_trustee_first_name@),
                );
                match r {
                    Ok(v) => failure is None && v@ == (
                        trust_name@,
                        primary_trustee_first_name@,
                        primary_trustee_postal_address@,
                    ),
                    Err(e) => failure == Some(e@),
                }
            }),
    {
        let trust_name = checked_entity_name(trust_name)?;
        let primary_trustee_first_name = checked_person_name(primary_trustee_first_name)?;
        Ok(
            PrimaryTrusteePostContact {
                trust_name,
                primary_trustee_first_name,
                primary_trustee_postal_address,
            },
        )
    }

    pub fn primary_trustee_first_name(&self) -> (r: &ConstrainedIndividualNameString100)
        ensures
            r@ == self@.1,
    {
        &self.primary_trustee_first_name
    }

    pub fn primary_trustee_postal_address(&self) -> (r: &PostalAddress)
        ensures
            r@ == self@.2,
    {
        &self.primary_trustee_postal_address
    }
}

/// One director of a company, reached by email.
#[derive(Debug, PartialEq, Eq)]
pub struct DirectorContact {
    first_name: ConstrainedIndividualNameString100,
    email_address: EmailAddress,
}

impl View for DirectorContact {
    /// The first name, then the email address.
    type V = (Seq<char>, Seq<char>);

    closed spec fn view(&self) -> (Seq<char>, Seq<char>) {
        (self.first_name@, self.email_address@)
    }
}

impl DirectorContact {
    pub fn validate(first_name: String, email_address: String) -> (r: Result<
        Self,
        ValidationError,
    >)
        ensures
            match r {
                Ok(v) => name_and_email_failure(first_name@, email_address@) is None && v@ == (
                    first_name@,
                    email_address@,
                ),
                Err(e) => name_and_email_failure(first_name@, email_address@) == Some(e@),
            },
    {
        let first_name = checked_person_name(first_name)?;
        let email_address = checked_email(email_address)?;
        Ok(DirectorContact { first_name, email_address })
    }

    pub fn first_name(&self) -> (r: &ConstrainedIndividualNameString100)
        ensures
            r@ == self@.0,
    {
        &self.first_name
    }

    pub fn email_address(&self) -> (r: &EmailAddress)
        ensures
            r@ == self@.1,
    {
        &self.email_address
    }
}

pub open spec fn director_electronic_views(s: Seq<DirectorContact>) -> Seq<
    (Seq<char>, Seq<char>),
> {
    s.map_values(|d: DirectorContact| d@)
}

/// The directors of a company, at least two, each reached by email.
#[derive(Debug, PartialEq, Eq)]
pub struct MultipleDirectorsElectronicContact {
    company_name: ConstainedTrustOrCompanyNameString200,
    directors: Vec<DirectorContact>,
}

impl View for MultipleDirectorsElectronicContact {
    /// The company's name, then each director in order.
    type V = (Seq<char>, Seq<(Seq<char>, Seq<char>)>);

    closed spec fn view(&self) -> (Seq<char>, Seq<(Seq<char>, Seq<char>)>) {
        (self.company_name@, director_electronic_views(self.directors@))
    }
}

impl MultipleDirectorsElectronicContact {
    #[verifier::type_invariant]
    closed spec fn inv(&self) -> bool {
        self.directors@.len() >= MIN_PARTIES
    }

    /// Checks the company's name, then that there are at least two directors.
    pub fn validate(company_name: String, directors: Vec<DirectorContact>) -> (r: Result<
        Self,
        ValidationError,
    >)
        ensures
            ({
                let failure = first_failure(
                    entity_name_failure(company_name@),
                    party_count_failure(directors@.len() as int, DIRECTORS_MESSAGE@),
                );
                match r {
                    Ok(v) => failure is None && v@ == (
                        company_name@,
                        director_electronic_views(directors@),
                    ),
                    Err(e) => failure == Some(e@),
                }
            }),
    {
        let company_name = checked_entity_name(company_name)?;
        if directors.len() < MIN_PARTIES {
            Err(ValidationError::EmptyInput(String::from_str(DIRECTORS_MESSAGE)))
        } else {
            Ok(MultipleDirectorsElectronicContact { company_name, directors })
        }
    }

    pub fn directors(&self) -> (r: &Vec<DirectorContact>)
        ensures
            director_electronic_views(r@) == self@.1,
            r@.len() >= MIN_PARTIES,
    {
        proof {
            use_type_invariant(self);
        }
        &self.directors
    }
}

/// The principal director of a company, reached by email.
#[derive(Debug, PartialEq, Eq)]
pub struct PrimaryDirectorElectronicContact {
    company_name: ConstainedTrustOrCompanyNameString200,
    primary_director_first_name: ConstrainedIndividualNameString100,
    primary_director_email_address: EmailAddress,
}

impl View for PrimaryDirectorElectronicContact {
    /// The company's name, the director's first name, then the email address.
    type V = (Seq<char>, Seq<char>, Seq<char>);

    closed spec fn view(&self) -> (Seq<char>, Seq<char>, Seq<char>) {
        (
            self.company_name@,
            self.primary_director_first_name@,
            self.primary_director_email_address@,
        )
    }
}

impl PrimaryDirectorElectronicContact {
    pub fn validate(
        company_name: String,
        primary_director_first_name: String,
        primary_director_email_address: String,
    ) -> (r: Result<Self, ValidationError>)
        ensures
            ({
                let failure = first_failure(
                    entity_name_failure(company_name@),
                    name_and_email_failure(
                        primary_director_first_name@,
                        primary_director_email_address@,
                    ),
                );
                match r {
                    Ok(v) => failure is None && v@ == (
                        company_name@,
                        primary_director_first_name@,
                        primary_director_email_address@,
                    ),
                    Err(e) => failure == Some(e@),
                }
            }),
    {
        let company_name = checked_entity_name(company_name)?;
        let primary_director_first_name = checked_person_name(primary_director_first_name)?;
        let primary_director_email_address = checked_email(primary_director_email_address)?;
        Ok(
            PrimaryDirectorElectronicContact {
                company_name,
                primary_director_first_name,
                primary_director_email_address,
            },
        )
    }

    pub fn primary_director_first_name(&self) -> (r: &ConstrainedIndividualNameString100)
        ensures
            r@ == self@.1,
    {
        &self.primary_director_first_name
    }

    pub fn primary_director_email_address(&self) -> (r: &EmailAddress)
        ensures
            r@ == self@.2,
    {
        &self.primary_director_email_address
    }
}

/// One director of a company, reached by post.
#[derive(Debug, PartialEq, Eq)]
pub struct DirectorPostContact {
    first_name: ConstrainedIndividualNameString100,
    postal_address: PostalAddress,
}

impl View for DirectorPostContact {
    /// The first name, then the address.
    type V = (Seq<char>, PostalAddressView);

    closed spec fn view(&self) -> (Seq<char>, PostalAddressView) {
        (self.first_name@, self.postal_address@)
    }
}

impl DirectorPostContact {
    pub fn validate(first_name: String, postal_address: PostalAddress) -> (r: Result<
        Self,
        ValidationError,
    >)
        ensures
            match r {
                Ok(v) => name_failure(first_name@) is None && v@ == (first_name@, postal_address@),
                Err(e) => name_failure(first_name@) == Some(e@),
            },
    {
        let first_name = checked_person_name(first_name)?;
        Ok(DirectorPostContact { first_name, postal_address })
    }

    pub fn first_name(&self) -> (r: &ConstrainedIndividualNameString100)
        ensures
            r@ == self@.0,
    {
        &self.first_name
    }

    pub fn postal_address(&self) -> (r: &PostalAddress)
        ensures
            r@ == self@.1,
    {
        &self.postal_address
    }
}

pub open spec fn director_post_views(s: Seq<DirectorPostContact>) -> Seq<
    (Seq<char>, PostalAddressView),
> {
    s.map_values(|d: DirectorPostContact| d@)
}

/// The directors of a company, at least two, each reached by post.
#[derive(Debug, PartialEq, Eq)]
pub struct MultipleDirectorsPostContact {
    company_name: ConstainedTrustOrCompanyNameString200,
    directors: Vec<DirectorPostContact>,
}

impl View for MultipleDirectorsPostContact {
    /// The company's name, then each director in order.
    type V = (Seq<char>, Seq<(Seq<char>, PostalAddressView)>);

    closed spec fn view(&self) -> (Seq<char>, Seq<(Seq<char>, PostalAddressView)>) {
        (self.company_name@, director_post_views(self.directors@))
    }
}

impl MultipleDirectorsPostContact {
    #[verifier::type_invariant]
    closed spec fn inv(&self) -> bool {
        self.directors@.len() >= MIN_PARTIES
    }

    /// Checks the company's name, then that there are at least two directors.
    pub fn validate(company_name: String, directors: Vec<DirectorPostContact>) -> (r: Result<
        Self,
        ValidationError,
    >)
        ensures
            ({
                let failure = first_failure(
                    entity_name_failure(company_name@),
                    party_count_failure(directors@.len() as int, DIRECTORS_MESSAGE@),
                );
                match r {
                    Ok(v) => failure is None && v@ == (company_name@, director_post_views(directors@)),
                    Err(e) => failure == Some(e@),
                }
            }),
    {
        let company_name = checked_entity_name(company_name)?;
        if directors.len() < MIN_PARTIES {
            Err(ValidationError::EmptyInput(String::from_str(DIRECTORS_MESSAGE)))
        } else {
            Ok(MultipleDirectorsPostContact { company_name, directors })
        }
    }

    pub fn directors(&self) -> (r: &Vec<DirectorPostContact>)
        ensures
            director_post_views(r@) == self@.1,
            r@.len() >= MIN_PARTIES,
    {
        proof {
            use_type_invariant(self);
        }
        &self.directors
    }
}

/// The principal director of a company, reached by post.
#[derive(Debug, PartialEq, Eq)]
pub struct PrimaryDirectorPostContact {
    primary_director_first_name: ConstrainedIndividualNameString100,
    primary_director_postal_address: PostalAddress,
}

impl View for PrimaryDirectorPostContact {
    /// The director's first name, then the address.
    type V = (Seq<char>, PostalAddressView);

    closed spec fn view(&self) -> (Seq<char>, PostalAddressView) {
        (self.primary_director_first_name@, self.primary_director_postal_address@)
    }
}

impl PrimaryDirectorPostContact {
    pub fn validate(
        primary_director_first_name: String,
        primary_director_postal_address: PostalAddress,
    ) -> (r: Result<Self, ValidationError>)
        ensures
            match r {
                Ok(v) => name_failure(primary_director_first_name@) is None && v@ == (
                    primary_director_first_name@,
                    primary_director_postal_address@,
                ),
                Err(e) => name_failure(primary_director_first_name@) == Some(e@),
            },
    {
        let primary_director_first_name = checked_person_name(primary_director_first_name)?;
        Ok(PrimaryDirectorPostContact { primary_director_first_name, primary_director_postal_address })
    }

    pub fn primary_director_first_name(&self) -> (r: &ConstrainedIndividualNameString100)
        ensures
            r@ == self@.0,
    {
        &self.primary_director_first_name
    }

    pub fn primary_director_postal_address(&self) -> (r: &PostalAddress)
        ensures
            r@ == self@.1,
    {
        &self.primary_director_postal_address
    }
}

} // verus!
