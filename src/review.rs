//! The annual-review envelope as it arrives, the closed set of contact shapes, and
//! the pipeline that turns the envelope into a fully validated record.
use vstd::prelude::*;

use crate::contacts::{
    address_failure, address_from_texts, address_outcome_from_texts, checked_entity_name,
    director_electronic_views, director_post_views, entity_name_failure, first_failure,
    joint_individuals_electronic_failure, name_and_email_failure, name_failure,
    party_count_failure, trustee_electronic_views, trustee_post_views, DirectorContact,
    DirectorPostContact, MultipleDirectorsElectronicContact, MultipleDirectorsPostContact,
    MultipleTrusteesElectronicContact, MultipleTrusteesPostContact,
    PrimaryDirectorElectronicContact, PrimaryDirectorPostContact,
    PrimaryTrusteeElectronicContact, PrimaryTrusteePostContact, SingleIndividualPostContact,
    TrusteeElectronicContact, TrusteePostContact, ValidatedJointIndividualsElectronicContact,
    ValidatedJointIndividualsPostContact, ValidatedSingleIndividualElectronicContact,
    DIRECTORS_MESSAGE, TRUSTEES_MESSAGE,
};
use crate::due_date::{day_month_year_parse, ValidatedAnnualReviewDueDate};
use crate::error::{ErrorKind, ValidationError};
use crate::postal_address::PostalAddressView;

verus! {

/// Two individuals to be reached by email, as received.
pub struct JointIndividualsElectronicContact {
    pub primary_contact_first_name: String,
    pub individual_two_first_name: String,
    pub primary_contact_email_address: String,
    pub individual_two_email_address: String,
}

/// One individual to be reached by email, as received.
pub struct SingleIndividualElectronicContact {
    pub first_name: String,
    pub email_address: String,
}

/// Two individuals to be reached by post at one address, as received; an empty
/// optional address part means that part is absent.
pub struct JointIndividualsPostContact {
    pub primary_contact_first_name: String,
    pub individual_two_first_name: String,
    pub house_name: String,
    pub house_number: String,
    pub address_line_one: String,
    pub address_line_two: String,
    pub address_line_three: String,
    pub address_line_four: String,
    pub city: String,
    pub county: String,
    pub postcode: String,
    pub country: String,
}

/// A postal address as received; an empty optional part means that part is
/// absent.
pub struct UnvalidatedPostalAddress {
    pub house_name: String,
    pub house_number: String,
    pub address_line_one: String,
    pub address_line_two: String,
    pub address_line_three: String,
    pub address_line_four: String,
    pub city: String,
    pub county: String,
    pub postcode: String,
    pub country: String,
}

/// One person to be reached by email, as received.
pub struct UnvalidatedElectronicParty {
    pub first_name: String,
    pub email_address: String,
}

/// One person to be reached by post, as received.
pub struct UnvalidatedPostParty {
    pub first_name: String,
    pub postal_address: UnvalidatedPostalAddress,
}

/// The principal trustee or director of a trust or company, to be reached by
/// email, as received.
pub struct UnvalidatedEntityElectronicContact {
    pub entity_name: String,
    pub first_name: String,
    pub email_address: String,
}

/// The principal trustee of a trust, to be reached by post, as received.
pub struct UnvalidatedEntityPostContact {
    pub entity_name: String,
    pub first_name: String,
    pub postal_address: UnvalidatedPostalAddress,
}

/// The trustees or directors of a trust or company, to be reached by email, as
/// received.
pub struct UnvalidatedMultipleElectronicContact {
    pub entity_name: String,
    pub parties: Vec<UnvalidatedElectronicParty>,
}

/// The trustees or directors of a trust or company, to be reached by post, as
/// received.
pub struct UnvalidatedMultiplePostContact {
    pub entity_name: String,
    pub parties: Vec<UnvalidatedPostParty>,
}

/// How a client is to be contacted, as received: exactly one shape per client.
pub enum ClientContactInformation {
    JointIndividualsElectronicContact(JointIndividualsElectronicContact),
    SingleIndividualElectronicContact(SingleIndividualElectronicContact),
    JointIndividualsPostContact(JointIndividualsPostContact),
    SingleIndividualPostContact(UnvalidatedPostParty),
    MultipleTrusteesElectronicContact(UnvalidatedMultipleElectronicContact),
    PrimaryTrusteeElectronicContact(UnvalidatedEntityElectronicContact),
    MultipleTrusteesPostContact(UnvalidatedMultiplePostContact),
    PrimaryTrusteePostContact(UnvalidatedEntityPostContact),
    MultipleDirectorsElectronicContact(UnvalidatedMultipleElectronicContact),
    PrimaryDirectorElectronicContact(UnvalidatedEntityElectronicContact),
    MultipleDirectorsPostContact(UnvalidatedMultiplePostContact),
    PrimaryDirectorPostContact(UnvalidatedPostParty),
}

/// The input of the annual-review workflow, as received.
pub struct UnvalidatedAnnualReviewInformation {
    pub annual_review_due_date: String,
    pub last_annual_review_due_date: String,
    pub adviser_name: String,
    pub administrator_email: String,
    pub client_contact_information: ClientContactInformation,
}

pub open spec fn raw_address_outcome(a: UnvalidatedPostalAddress) -> Result<
    PostalAddressView,
    Seq<char>,
> {
    address_outcome_from_texts(
        a.house_name@,
        a.house_number@,
        a.address_line_one@,
        a.address_line_two@,
        a.address_line_three@,
        a.address_line_four@,
        a.city@,
        a.county@,
        a.postcode@,
        a.country@,
    )
}

pub open spec fn electronic_party_failure(q: UnvalidatedElectronicParty) -> Option<
    (ErrorKind, Seq<char>),
> {
    name_and_email_failure(q.first_name@, q.email_address@)
}

pub open spec fn electronic_party_view(q: UnvalidatedElectronicParty) -> (Seq<char>, Seq<char>) {
    (q.first_name@, q.email_address@)
}

/// A person reached by post: the address is assembled first, then the name is
/// checked.
pub open spec fn post_party_failure(q: UnvalidatedPostParty) -> Option<(ErrorKind, Seq<char>)> {
    first_failure(address_failure(raw_address_outcome(q.postal_address)), name_failure(q.first_name@))
}

pub open spec fn post_party_view(q: UnvalidatedPostParty) -> (Seq<char>, PostalAddressView) {
    (q.first_name@, raw_address_outcome(q.postal_address)->Ok_0)
}

/// The failure of the first party, in order, that fails `check`, if any.
pub open spec fn first_party_failure<P>(
    parties: Seq<P>,
    check: spec_fn(P) -> Option<(ErrorKind, Seq<char>)>,
) -> Option<(ErrorKind, Seq<char>)>
    decreases parties.len(),
{
    if parties.len() == 0 {
        None
    } else {
        first_failure(first_party_failure(parties.drop_last(), check), check(parties.last()))
    }
}

/// Once some party among the first `k` fails, that failure is the first of all.
proof fn lemma_first_party_failure_settled<P>(
    parties: Seq<P>,
    check: spec_fn(P) -> Option<(ErrorKind, Seq<char>)>,
    k: int,
)
    requires
        0 <= k <= parties.len(),
        first_party_failure(parties.subrange(0, k), check) is Some,
    ensures
        first_party_failure(parties, check) == first_party_failure(parties.subrange(0, k), check),
    decreases parties.len() - k,
{
    if k < parties.len() {
        assert(parties.subrange(0, k + 1).drop_last() =~= parties.subrange(0, k));
        lemma_first_party_failure_settled(parties, check, k + 1);
    } else {
        assert(parties.subrange(0, k) =~= parties);
    }
}

pub open spec fn electronic_parties_failure(parties: Seq<UnvalidatedElectronicParty>) -> Option<
    (ErrorKind, Seq<char>),
> {
    first_party_failure(parties, |q: UnvalidatedElectronicParty| electronic_party_failure(q))
}

pub open spec fn post_parties_failure(parties: Seq<UnvalidatedPostParty>) -> Option<
    (ErrorKind, Seq<char>),
> {
    first_party_failure(parties, |q: UnvalidatedPostParty| post_party_failure(q))
}

/// The name of the trust or company, then each party in order, then the number
/// of parties.
pub open spec fn multiple_electronic_failure(
    raw: UnvalidatedMultipleElectronicContact,
    count_message: Seq<char>,
) -> Option<(ErrorKind, Seq<char>)> {
    first_failure(
        entity_name_failure(raw.entity_name@),
        first_failure(
            electronic_parties_failure(raw.parties@),
            party_count_failure(raw.parties@.len() as int, count_message),
        ),
    )
}

/// The name of the trust or company, then each party in order, then the number
/// of parties.
pub open spec fn multiple_post_failure(
    raw: UnvalidatedMultiplePostContact,
    count_message: Seq<char>,
) -> Option<(ErrorKind, Seq<char>)> {
    first_failure(
        entity_name_failure(raw.entity_name@),
        first_failure(
            post_parties_failure(raw.parties@),
            party_count_failure(raw.parties@.len() as int, count_message),
        ),
    )
}

pub open spec fn entity_electronic_failure(raw: UnvalidatedEntityElectronicContact) -> Option<
    (ErrorKind, Seq<char>),
> {
    first_failure(
        entity_name_failure(raw.entity_name@),
        name_and_email_failure(raw.first_name@, raw.email_address@),
    )
}

/// The address is assembled first, then the trust's name and the trustee's name
/// are checked.
pub open spec fn entity_post_failure(raw: UnvalidatedEntityPostContact) -> Option<
    (ErrorKind, Seq<char>),
> {
    first_failure(
        address_failure(raw_address_outcome(raw.postal_address)),
        first_failure(entity_name_failure(raw.entity_name@), name_failure(raw.first_name@)),
    )
}

pub open spec fn joint_post_address_outcome(raw: JointIndividualsPostContact) -> Result<
    PostalAddressView,
    Seq<char>,
> {
    address_outcome_from_texts(
        raw.house_name@,
        raw.house_number@,
        raw.address_line_one@,
        raw.address_line_two@,
        raw.address_line_three@,
        raw.address_line_four@,
        raw.city@,
        raw.county@,
        raw.postcode@,
        raw.country@,
    )
}

/// The first failing check of a contact shape, if any.
pub open spec fn contact_failure(info: ClientContactInformation) -> Option<(ErrorKind, Seq<char>)> {
    match info {
        ClientContactInformation::JointIndividualsElectronicContact(raw) => {
            joint_individuals_electronic_failure(
                raw.primary_contact_first_name@,
                raw.individual_two_first_name@,
                raw.primary_contact_email_address@,
                raw.individual_two_email_address@,
            )
        },
        ClientContactInformation::SingleIndividualElectronicContact(raw) => {
            name_and_email_failure(raw.first_name@, raw.email_address@)
        },
        ClientContactInformation::JointIndividualsPostContact(raw) => {
            first_failure(
                name_failure(raw.primary_contact_first_name@),
                first_failure(
                    name_failure(raw.individual_two_first_name@),
                    address_failure(joint_post_address_outcome(raw)),
                ),
            )
        },
        ClientContactInformation::SingleIndividualPostContact(raw) => post_party_failure(raw),
        ClientContactInformation::MultipleTrusteesElectronicContact(raw) => {
            multiple_electronic_failure(raw, TRUSTEES_MESSAGE@)
        },
        ClientContactInformation::PrimaryTrusteeElectronicContact(raw) => entity_electronic_failure(
            raw,
        ),
        ClientContactInformation::MultipleTrusteesPostContact(raw) => {
            multiple_post_failure(raw, TRUSTEES_MESSAGE@)
        },
        ClientContactInformation::PrimaryTrusteePostContact(raw) => entity_post_failure(raw),
        ClientContactInformation::MultipleDirectorsElectronicContact(raw) => {
            multiple_electronic_failure(raw, DIRECTORS_MESSAGE@)
        },
        ClientContactInformation::PrimaryDirectorElectronicContact(raw) => entity_electronic_failure(
            raw,
        ),
        ClientContactInformation::MultipleDirectorsPostContact(raw) => {
            multiple_post_failure(raw, DIRECTORS_MESSAGE@)
        },
        ClientContactInformation::PrimaryDirectorPostContact(raw) => post_party_failure(raw),
    }
}

/// `v` is the validated form of `info`: the same shape, holding the received
/// texts (and the addresses assembled from them).
pub open spec fn validated_from(
    v: ValidatedClientContactInformation,
    info: ClientContactInformation,
) -> bool {
    match (v, info) {
        (
            ValidatedClientContactInformation::ValidatedJointIndividualsElectronicContact(c),
            ClientContactInformation::JointIndividualsElectronicContact(raw),
        ) => c@ == (
            raw.primary_contact_first_name@,
            raw.individual_two_first_name@,
            raw.primary_contact_email_address@,
            raw.individual_two_email_address@,
        ),
        (
            ValidatedClientContactInformation::ValidatedSingleIndividualElectronicContact(c),
            ClientContactInformation::SingleIndividualElectronicContact(raw),
        ) => c@ == (raw.first_name@, raw.email_address@),
        (
            ValidatedClientContactInformation::ValidatedJointIndividualsPostContact(c),
            ClientContactInformation::JointIndividualsPostContact(raw),
        ) => c@ == (
            raw.primary_contact_first_name@,
            raw.individual_two_first_name@,
            joint_post_address_outcome(raw)->Ok_0,
        ),
        (
            ValidatedClientContactInformation::SingleIndividualPostContact(c),
            ClientContactInformation::SingleIndividualPostContact(raw),
        ) => c@ == post_party_view(raw),
        (
            ValidatedClientContactInformation::MultipleTrusteesElectronicContact(c),
            ClientContactInformation::MultipleTrusteesElectronicContact(raw),
        ) => c@ == (
            raw.entity_name@,
            raw.parties@.map_values(|q: UnvalidatedElectronicParty| electronic_party_view(q)),
        ),
        (
            ValidatedClientContactInformation::PrimaryTrusteeElectronicContact(c),
            ClientContactInformation::PrimaryTrusteeElectronicContact(raw),
        ) => c@ == (raw.entity_name@, raw.first_name@, raw.email_address@),
        (
            ValidatedClientContactInformation::MultipleTrusteesPostContact(c),
            ClientContactInformation::MultipleTrusteesPostContact(raw),
        ) => c@ == (
            raw.entity_name@,
            raw.parties@.map_values(|q: UnvalidatedPostParty| post_party_view(q)),
        ),
        (
            ValidatedClientContactInformation::PrimaryTrusteePostContact(c),
            ClientContactInformation::PrimaryTrusteePostContact(raw),
        ) => c@ == (
            raw.entity_name@,
            raw.first_name@,
            raw_address_outcome(raw.postal_address)->Ok_0,
        ),
        (
            ValidatedClientContactInformation::MultipleDirectorsElectronicContact(c),
            ClientContactInformation::MultipleDirectorsElectronicContact(raw),
        ) => c@ == (
            raw.entity_name@,
            raw.parties@.map_values(|q: UnvalidatedElectronicParty| electronic_party_view(q)),
        ),
        (
            ValidatedClientContactInformation::PrimaryDirectorElectronicContact(c),
            ClientContactInformation::PrimaryDirectorElectronicContact(raw),
        ) => c@ == (raw.entity_name@, raw.first_name@, raw.email_address@),
        (
            ValidatedClientContactInformation::MultipleDirectorsPostContact(c),
            ClientContactInformation::MultipleDirectorsPostContact(raw),
        ) => c@ == (
            raw.entity_name@,
            raw.parties@.map_values(|q: UnvalidatedPostParty| post_party_view(q)),
        ),
        (
            ValidatedClientContactInformation::PrimaryDirectorPostContact(c),
            ClientContactInformation::PrimaryDirectorPostContact(raw),
        ) => c@ == post_party_view(raw),
        _ => false,
    }
}

/// How a client is to be contacted, every part checked: exactly one shape.
#[derive(Debug, PartialEq, Eq)]
pub enum ValidatedClientContactInformation {
    ValidatedJointIndividualsElectronicContact(ValidatedJointIndividualsElectronicContact),
    ValidatedSingleIndividualElectronicContact(ValidatedSingleIndividualElectronicContact),
    ValidatedJointIndividualsPostContact(ValidatedJointIndividualsPostContact),
    SingleIndividualPostContact(SingleIndividualPostContact),
    MultipleTrusteesElectronicContact(MultipleTrusteesElectronicContact),
    PrimaryTrusteeElectronicContact(PrimaryTrusteeElectronicContact),
    MultipleTrusteesPostContact(MultipleTrusteesPostContact),
    PrimaryTrusteePostContact(PrimaryTrusteePostContact),
    MultipleDirectorsElectronicContact(MultipleDirectorsElectronicContact),
    PrimaryDirectorElectronicContact(PrimaryDirectorElectronicContact),
    MultipleDirectorsPostContact(MultipleDirectorsPostContact),
    PrimaryDirectorPostContact(PrimaryDirectorPostContact),
}

/// `r` is what validating `info` owes: the validated form of `info` when no check
/// fails, else the first failure.
pub open spec fn contact_outcome(
    r: Result<ValidatedClientContactInformation, ValidationError>,
    info: ClientContactInformation,
) -> bool {
    match r {
        Ok(v) => contact_failure(info) is None && validated_from(v, info),
        Err(e) => contact_failure(info) == Some(e@),
    }
}

fn raw_address(a: &UnvalidatedPostalAddress) -> (r: Result<crate::postal_address::PostalAddress, ValidationError>)
    ensures
        match r {
            Ok(p) => raw_address_outcome(*a) == Ok::<PostalAddressView, Seq<char>>(p@),
            Err(e) => address_failure(raw_address_outcome(*a)) == Some(e@),
        },
{
    address_from_texts(
        a.house_name.clone(),
        a.house_number.clone(),
        a.address_line_one.clone(),
        a.address_line_two.clone(),
        a.address_line_three.clone(),
        a.address_line_four.clone(),
        a.city.clone(),
        a.county.clone(),
        a.postcode.clone(),
        a.country.clone(),
    )
}

fn trustees_electronic(parties: &Vec<UnvalidatedElectronicParty>) -> (r: Result<
    Vec<TrusteeElectronicContact>,
    ValidationError,
>)
    ensures
        match r {
            Ok(v) => electronic_parties_failure(parties@) is None && v@.len() == parties@.len()
                && trustee_electronic_views(v@)
                == parties@.map_values(|q: UnvalidatedElectronicParty| electronic_party_view(q)),
            Err(e) => electronic_parties_failure(parties@) == Some(e@),
        },
{
    let mut built: Vec<TrusteeElectronicContact> = Vec::new();
    let mut i: usize = 0;
    while i < parties.len()
        invariant
            i <= parties@.len(),
            electronic_parties_failure(parties@.subrange(0, i as int)) is None,
            built@.len() == i,
            forall|j: int| 0 <= j < i ==> (#[trigger] built@[j])@ == electronic_party_view(parties@[j]),
        decreases parties@.len() - i,
    {
        let q = &parties[i];
        proof {
            assert(parties@.subrange(0, i + 1).drop_last() =~= parties@.subrange(0, i as int));
        }
        match TrusteeElectronicContact::validate(q.first_name.clone(), q.email_address.clone()) {
            Ok(t) => built.push(t),
            Err(e) => {
                proof {
                    lemma_first_party_failure_settled(
                        parties@,
                        |q: UnvalidatedElectronicParty| electronic_party_failure(q),
                        i + 1,
                    );
                }
                return Err(e);
            },
        }
        i += 1;
    }
    proof {
        assert(parties@.subrange(0, i as int) =~= parties@);
        assert(trustee_electronic_views(built@) =~= parties@.map_values(
            |q: UnvalidatedElectronicParty| electronic_party_view(q),
        ));
    }
    Ok(built)
}


fn directors_electronic(parties: &Vec<UnvalidatedElectronicParty>) -> (r: Result<
    Vec<DirectorContact>,
    ValidationError,
>)
    ensures
        match r {
            Ok(v) => electronic_parties_failure(parties@) is None && v@.len() == parties@.len()
                && director_electronic_views(v@)
                == parties@.map_values(|q: UnvalidatedElectronicParty| electronic_party_view(q)),
            Err(e) => electronic_parties_failure(parties@) == Some(e@),
        },
{
    let mut built: Vec<DirectorContact> = Vec::new();
    let mut i: usize = 0;
    while i < parties.len()
        invariant
            i <= parties@.len(),
            electronic_parties_failure(parties@.subrange(0, i as int)) is None,
            built@.len() == i,
            forall|j: int| 0 <= j < i ==> (#[trigger] built@[j])@ == electronic_party_view(parties@[j]),
        decreases parties@.len() - i,
    {
        let q = &parties[i];
        proof {
            assert(parties@.subrange(0, i + 1).drop_last() =~= parties@.subrange(0, i as int));
        }
        match DirectorContact::validate(q.first_name.clone(), q.email_address.clone()) {
            Ok(t) => built.push(t),
            Err(e) => {
                proof {
                    lemma_first_party_failure_settled(
                        parties@,
                        |q: UnvalidatedElectronicParty| electronic_party_failure(q),
                        i + 1,
                    );
                }
                return Err(e);
            },
        }
        i += 1;
    }
    proof {
        assert(parties@.subrange(0, i as int) =~= parties@);
        assert(director_electronic_views(built@) =~= parties@.map_values(
            |q: UnvalidatedElectronicParty| electronic_party_view(q),
        ));
    }
    Ok(built)
}


fn trustees_post(parties: &Vec<UnvalidatedPostParty>) -> (r: Result<
    Vec<TrusteePostContact>,
    ValidationError,
>)
    ensures
        match r {
            Ok(v) => post_parties_failure(parties@) is None && v@.len() == parties@.len()
                && trustee_post_views(v@)
                == parties@.map_values(|q: UnvalidatedPostParty| post_party_view(q)),
            Err(e) => post_parties_failure(parties@) == Some(e@),
        },
{
    let mut built: Vec<TrusteePostContact> = Vec::new();
    let mut i: usize = 0;
    while i < parties.len()
        invariant
            i <= parties@.len(),
            post_parties_failure(parties@.subrange(0, i as int)) is None,
            built@.len() == i,
            forall|j: int| 0 <= j < i ==> (#[trigger] built@[j])@ == post_party_view(parties@[j]),
        decreases parties@.len() - i,
    {
        let q = &parties[i];
        proof {
            assert(parties@.subrange(0, i + 1).drop_last() =~= parties@.subrange(0, i as int));
        }
        let checked = match raw_address(&q.postal_address) {
            Ok(a) => TrusteePostContact::validate(q.first_name.clone(), a),
            Err(e) => Err(e),
        };
        match checked {
            Ok(t) => built.push(t),
            Err(e) => {
                proof {
                    lemma_first_party_failure_settled(
                        parties@,
                        |q: UnvalidatedPostParty| post_party_failure(q),
                        i + 1,
                    );
                }
                return Err(e);
            },
        }
        i += 1;
    }
    proof {
        assert(parties@.subrange(0, i as int) =~= parties@);
        assert(trustee_post_views(built@) =~= parties@.map_values(
            |q: UnvalidatedPostParty| post_party_view(q),
        ));
    }
    Ok(built)
}

fn directors_post(parties: &Vec<UnvalidatedPostParty>) -> (r: Result<
    Vec<DirectorPostContact>,
    ValidationError,
>)
    ensures
        match r {
            Ok(v) => post_parties_failure(parties@) is None && v@.len() == parties@.len()
                && director_post_views(v@)
                == parties@.map_values(|q: UnvalidatedPostParty| post_party_view(q)),
            Err(e) => post_parties_failure(parties@) == Some(e@),
        },
{
    let mut built: Vec<DirectorPostContact> = Vec::new();
    let mut i: usize = 0;
    while i < parties.len()
        invariant
            i <= parties@.len(),
            post_parties_failure(parties@.subrange(0, i as int)) is None,
            built@.len() == i,
            forall|j: int| 0 <= j < i ==> (#[trigger] built@[j])@ == post_party_view(parties@[j]),
        decreases parties@.len() - i,
    {
        let q = &parties[i];
        proof {
            assert(parties@.subrange(0, i + 1).drop_last() =~= parties@.subrange(0, i as int));
        }
        let checked = match raw_address(&q.postal_address) {
            Ok(a) => DirectorPostContact::validate(q.first_name.clone(), a),
            Err(e) => Err(e),
        };
        match checked {
            Ok(t) => built.push(t),
            Err(e) => {
                proof {
                    lemma_first_party_failure_settled(
                        parties@,
                        |q: UnvalidatedPostParty| post_party_failure(q),
                        i + 1,
                    );
                }
                return Err(e);
            },
        }
        i += 1;
    }
    proof {
        assert(parties@.subrange(0, i as int) =~= parties@);
        assert(director_post_views(built@) =~= parties@.map_values(
            |q: UnvalidatedPostParty| post_party_view(q),
        ));
    }
    Ok(built)
}

impl ValidatedClientContactInformation {
    pub fn validate_joint_indivduals_electronic_contact(
        joint_individuals_electronic_contact: JointIndividualsElectronicContact,
    ) -> (r: Result<Self, ValidationError>)
        ensures
            contact_outcome(
                r,
                ClientContactInformation::JointIndividualsElectronicContact(
                    joint_individuals_electronic_contact,
                ),
            ),
    {
        let c = joint_individuals_electronic_contact;
        let valid = ValidatedJointIndividualsElectronicContact::validate(
            c.primary_contact_first_name,
            c.individual_two_first_name,
            c.primary_contact_email_address,
            c.individual_two_email_address,
        )?;
        Ok(ValidatedClientContactInformation::ValidatedJointIndividualsElectronicContact(valid))
    }

    pub fn validate_single_indivdual_electronic_contact(
        single_individual_electronic_contact: SingleIndividualElectronicContact,
    ) -> (r: Result<Self, ValidationError>)
        ensures
            contact_outcome(
                r,
                ClientContactInformation::SingleIndividualElectronicContact(
                    single_individual_electronic_contact,
                ),
            ),
    {
        let c = single_individual_electronic_contact;
        let valid = ValidatedSingleIndividualElectronicContact::validate(
            c.first_name,
            c.email_address,
        )?;
        Ok(ValidatedClientContactInformation::ValidatedSingleIndividualElectronicContact(valid))
    }

    pub fn validated_joint_individuals_post_contact(
        joint_individuals_post_contact: JointIndividualsPostContact,
    ) -> (r: Result<Self, ValidationError>)
        ensures
            contact_outcome(
                r,
                ClientContactInformation::JointIndividualsPostContact(
                    joint_individuals_post_contact,
                ),
            ),
    {
        let c = joint_individuals_post_contact;
        let valid = ValidatedJointIndividualsPostContact::validate(
            c.primary_contact_first_name,
            c.individual_two_first_name,
            c.house_name,
            c.house_number,
            c.address_line_one,
            c.address_line_two,
            c.address_line_three,
            c.address_line_four,
            c.city,
            c.county,
            c.postcode,
            c.country,
        )?;
        Ok(ValidatedClientContactInformation::ValidatedJointIndividualsPostContact(valid))
    }

    pub fn validate_single_individual_post_contact(contact: UnvalidatedPostParty) -> (r: Result<
        Self,
        ValidationError,
    >)
        ensures
            contact_outcome(r, ClientContactInformation::SingleIndividualPostContact(contact)),
    {
        let address = raw_address(&contact.postal_address)?;
        let valid = SingleIndividualPostContact::validate(contact.first_name, address)?;
        Ok(ValidatedClientContactInformation::SingleIndividualPostContact(valid))
    }

    pub fn validate_multiple_trustees_electronic_contact(
        contact: UnvalidatedMultipleElectronicContact,
    ) -> (r: Result<Self, ValidationError>)
        ensures
            contact_outcome(r, ClientContactInformation::MultipleTrusteesElectronicContact(contact)),
    {
        let trust_name = checked_entity_name(contact.entity_name)?;
        let trustees = trustees_electronic(&contact.parties)?;
        let valid = MultipleTrusteesElectronicContact::validate(trust_name, trustees)?;
        Ok(ValidatedClientContactInformation::MultipleTrusteesElectronicContact(valid))
    }

    pub fn validate_primary_trustee_electronic_contact(
        contact: UnvalidatedEntityElectronicContact,
    ) -> (r: Result<Self, ValidationError>)
        ensures
            contact_outcome(r, ClientContactInformation::PrimaryTrusteeElectronicContact(contact)),
    {
        let valid = PrimaryTrusteeElectronicContact::validate(
            contact.entity_name,
            contact.first_name,
            contact.email_address,
        )?;
        Ok(ValidatedClientContactInformation::PrimaryTrusteeElectronicContact(valid))
    }

    pub fn validate_multiple_trustees_post_contact(contact: UnvalidatedMultiplePostContact) -> (r:
        Result<Self, ValidationError>)
        ensures
            contact_outcome(r, ClientContactInformation::MultipleTrusteesPostContact(contact)),
    {
        checked_entity_name(contact.entity_name.clone())?;
        let trustees = trustees_post(&contact.parties)?;
        let valid = MultipleTrusteesPostContact::validate(contact.entity_name, trustees)?;
        Ok(ValidatedClientContactInformation::MultipleTrusteesPostContact(valid))
    }

    pub fn validate_primary_trustee_post_contact(contact: UnvalidatedEntityPostContact) -> (r:
        Result<Self, ValidationError>)
        ensures
            contact_outcome(r, ClientContactInformation::PrimaryTrusteePostContact(contact)),
    {
        let address = raw_address(&contact.postal_address)?;
        let valid = PrimaryTrusteePostContact::validate(
            contact.entity_name,
            contact.first_name,
            address,
        )?;
        Ok(ValidatedClientContactInformation::PrimaryTrusteePostContact(valid))
    }

    pub fn validate_multiple_directors_electronic_contact(
        contact: UnvalidatedMultipleElectronicContact,
    ) -> (r: Result<Self, ValidationError>)
        ensures
            contact_outcome(
                r,
                ClientContactInformation::MultipleDirectorsElectronicContact(contact),
            ),
    {
        checked_entity_name(contact.entity_name.clone())?;
        let directors = directors_electronic(&contact.parties)?;
        let valid = MultipleDirectorsElectronicContact::validate(contact.entity_name, directors)?;
        Ok(ValidatedClientContactInformation::MultipleDirectorsElectronicContact(valid))
    }

    pub fn validate_primary_director_electronic_contact(
        contact: UnvalidatedEntityElectronicContact,
    ) -> (r: Result<Self, ValidationError>)
        ensures
            contact_outcome(r, ClientContactInformation::PrimaryDirectorElectronicContact(contact)),
    {
        let valid = PrimaryDirectorElectronicContact::validate(
            contact.entity_name,
            contact.first_name,
            contact.email_address,
        )?;
        Ok(ValidatedClientContactInformation::PrimaryDirectorElectronicContact(valid))
    }

    pub fn validate_multiple_directors_post_contact(contact: UnvalidatedMultiplePostContact) -> (r:
        Result<Self, ValidationError>)
        ensures
            contact_outcome(r, ClientContactInformation::MultipleDirectorsPostContact(contact)),
    {
        checked_entity_name(contact.entity_name.clone())?;
        let directors = directors_post(&contact.parties)?;
        let valid = MultipleDirectorsPostContact::validate(contact.entity_name, directors)?;
        Ok(ValidatedClientContactInformation::MultipleDirectorsPostContact(valid))
    }

    pub fn validate_primary_director_post_contact(contact: UnvalidatedPostParty) -> (r: Result<
        Self,
        ValidationError,
    >)
        ensures
            contact_outcome(r, ClientContactInformation::PrimaryDirectorPostContact(contact)),
    {
        let address = raw_address(&contact.postal_address)?;
        let valid = PrimaryDirectorPostContact::validate(contact.first_name, address)?;
        Ok(ValidatedClientContactInformation::PrimaryDirectorPostContact(valid))
    }

    /// Validates whichever shape `info` holds with that shape's rules.
    pub fn validate(info: ClientContactInformation) -> (r: Result<Self, ValidationError>)
        ensures
            contact_outcome(r, info),
    {
        match info {
            ClientContactInformation::JointIndividualsElectronicContact(c) => {
                Self::validate_joint_indivduals_electronic_contact(c)
            },
            ClientContactInformation::SingleIndividualElectronicContact(c) => {
                Self::validate_single_indivdual_electronic_contact(c)
            },
            ClientContactInformation::JointIndividualsPostContact(c) => {
                Self::validated_joint_individuals_post_contact(c)
            },
            ClientContactInformation::SingleIndividualPostContact(c) => {
                Self::validate_single_individual_post_contact(c)
            },
            ClientContactInformation::MultipleTrusteesElectronicContact(c) => {
                Self::validate_multiple_trustees_electronic_contact(c)
            },
            ClientContactInformation::PrimaryTrusteeElectronicContact(c) => {
                Self::validate_primary_trustee_electronic_contact(c)
            },
            ClientContactInformation::MultipleTrusteesPostContact(c) => {
                Self::validate_multiple_trustees_post_contact(c)
            },
            ClientContactInformation::PrimaryTrusteePostContact(c) => {
                Self::validate_primary_trustee_post_contact(c)
            },
            ClientContactInformation::MultipleDirectorsElectronicContact(c) => {
                Self::validate_multiple_directors_electronic_contact(c)
            },
            ClientContactInformation::PrimaryDirectorElectronicContact(c) => {
                Self::validate_primary_director_electronic_contact(c)
            },
            ClientContactInformation::MultipleDirectorsPostContact(c) => {
                Self::validate_multiple_directors_post_contact(c)
            },
            ClientContactInformation::PrimaryDirectorPostContact(c) => {
                Self::validate_primary_director_post_contact(c)
            },
        }
    }
}

/// The workflow's input with every part checked: a real due date and a valid
/// way of contacting the client.
#[derive(Debug, PartialEq, Eq)]
pub struct ValidatedAnnualReviewInformation {
    annual_review_due_date: ValidatedAnnualReviewDueDate,
    client_contact_information: ValidatedClientContactInformation,
}

impl ValidatedAnnualReviewInformation {
    pub closed spec fn spec_annual_review_due_date(&self) -> ValidatedAnnualReviewDueDate {
        self.annual_review_due_date
    }

    pub closed spec fn spec_client_contact_information(&self) -> ValidatedClientContactInformation {
        self.client_contact_information
    }

    /// Checks the due date, then the contact information, and stops at the
    /// first failure.
    pub fn validate(unvalidated_annual_review_information: UnvalidatedAnnualReviewInformation) -> (r:
        Result<Self, ValidationError>)
        ensures
            ({
                let u = unvalidated_annual_review_information;
                match day_month_year_parse(u.annual_review_due_date@) {
                    Err(m) => r is Err && r->Err_0@ == (ErrorKind::InvalidDate, m),
                    Ok(d) => match contact_failure(u.client_contact_information) {
                        Some(f) => r is Err && r->Err_0@ == f,
                        None => r is Ok && r->Ok_0.spec_annual_review_due_date()@ == (
                            d.0 as int,
                            d.1 as int,
                            d.2 as int,
                        ) && validated_from(
                            r->Ok_0.spec_client_contact_information(),
                            u.client_contact_information,
                        ),
                    },
                }
            }),
    {
        let u = unvalidated_annual_review_information;
        let annual_review_due_date = ValidatedAnnualReviewDueDate::validate(
            u.annual_review_due_date,
            u.last_annual_review_due_date,
        )?;
        let client_contact_information = ValidatedClientContactInformation::validate(
            u.client_contact_information,
        )?;
        Ok(ValidatedAnnualReviewInformation { annual_review_due_date, client_contact_information })
    }

    pub fn annual_review_due_date(&self) -> (r: &ValidatedAnnualReviewDueDate)
        ensures
            *r == self.spec_annual_review_due_date(),
    {
        &self.annual_review_due_date
    }

    pub fn client_contact_information(&self) -> (r: &ValidatedClientContactInformation)
        ensures
            *r == self.spec_client_contact_information(),
    {
        &self.client_contact_information
    }
}

} // verus!
