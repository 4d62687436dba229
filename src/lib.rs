//! Domain model for the annual-review workflow of a wealth-management back office.
//!
//! Raw, string-based client data is turned into strongly typed values by smart
//! constructors; every constructed value satisfies its type's rules. The
//! contact information of a client takes exactly one of a closed set of
//! shapes, and the whole workflow input is validated in one fail-fast pass.
pub mod contacts;
pub mod due_date;
pub mod error;
pub mod laws;
pub mod postal_address;
pub mod review;
pub mod simple_types;
pub mod text_rules;

pub use contacts::{
    DirectorContact, DirectorPostContact, MultipleDirectorsElectronicContact,
    MultipleDirectorsPostContact, MultipleTrusteesElectronicContact, MultipleTrusteesPostContact,
    PrimaryDirectorElectronicContact, PrimaryDirectorPostContact, PrimaryTrusteeElectronicContact,
    PrimaryTrusteePostContact, SingleIndividualPostContact, TrusteeElectronicContact,
    TrusteePostContact, ValidatedJointIndividualsElectronicContact,
    ValidatedJointIndividualsPostContact, ValidatedSingleIndividualElectronicContact,
};
pub use due_date::ValidatedAnnualReviewDueDate;
pub use error::{ErrorKind, ValidationError};
pub use postal_address::PostalAddress;
pub use review::{
    ClientContactInformation, JointIndividualsElectronicContact, JointIndividualsPostContact,
    SingleIndividualElectronicContact, UnvalidatedAnnualReviewInformation,
    UnvalidatedElectronicParty, UnvalidatedEntityElectronicContact, UnvalidatedEntityPostContact,
    UnvalidatedMultipleElectronicContact, UnvalidatedMultiplePostContact, UnvalidatedPostParty,
    UnvalidatedPostalAddress, ValidatedAnnualReviewInformation, ValidatedClientContactInformation,
};
pub use simple_types::{
    ClientId, ConstainedTrustOrCompanyNameString200, ConstrainedAddressString100,
    ConstrainedIndividualNameString100, EmailAddress, Postcode,
};
