use gcwm_domain::{
    ClientContactInformation, ClientId, ConstainedTrustOrCompanyNameString200,
    ConstrainedAddressString100, ConstrainedIndividualNameString100, DirectorContact,
    DirectorPostContact, EmailAddress, ErrorKind, JointIndividualsElectronicContact,
    JointIndividualsPostContact, MultipleDirectorsElectronicContact,
    MultipleDirectorsPostContact, MultipleTrusteesElectronicContact, MultipleTrusteesPostContact,
    PostalAddress, Postcode, PrimaryDirectorElectronicContact, PrimaryDirectorPostContact,
    PrimaryTrusteeElectronicContact, PrimaryTrusteePostContact, SingleIndividualElectronicContact,
    SingleIndividualPostContact, TrusteeElectronicContact, TrusteePostContact,
    UnvalidatedAnnualReviewInformation, UnvalidatedElectronicParty,
    UnvalidatedEntityElectronicContact, UnvalidatedEntityPostContact,
    UnvalidatedMultipleElectronicContact, UnvalidatedMultiplePostContact, UnvalidatedPostParty,
    UnvalidatedPostalAddress, ValidatedAnnualReviewDueDate, ValidatedAnnualReviewInformation,
    ValidatedClientContactInformation, ValidatedJointIndividualsElectronicContact,
    ValidatedJointIndividualsPostContact, ValidatedSingleIndividualElectronicContact,
    ValidationError,
};

fn s(t: &str) -> String {
    t.to_string()
}

fn address(line_one: &str, city: &str, postcode: &str) -> PostalAddress {
    PostalAddress::new(None, None, s(line_one), None, None, None, s(city), None, s(postcode), None)
        .unwrap()
}

fn raw_address(line_one: &str, city: &str, postcode: &str) -> UnvalidatedPostalAddress {
    UnvalidatedPostalAddress {
        house_name: s(""),
        house_number: s(""),
        address_line_one: s(line_one),
        address_line_two: s(""),
        address_line_three: s(""),
        address_line_four: s(""),
        city: s(city),
        county: s(""),
        postcode: s(postcode),
        country: s(""),
    }
}

fn envelope(due: &str, info: ClientContactInformation) -> UnvalidatedAnnualReviewInformation {
    UnvalidatedAnnualReviewInformation {
        annual_review_due_date: s(due),
        last_annual_review_due_date: s("01/06/2024"),
        adviser_name: s("Adviser"),
        administrator_email: s("admin@example.com"),
        client_contact_information: info,
    }
}

fn party(name: &str, email: &str) -> UnvalidatedElectronicParty {
    UnvalidatedElectronicParty { first_name: s(name), email_address: s(email) }
}

fn trustee(name: &str) -> TrusteeElectronicContact {
    TrusteeElectronicContact::validate(s(name), s("t@example.com")).unwrap()
}

fn trust_name() -> ConstainedTrustOrCompanyNameString200 {
    ConstainedTrustOrCompanyNameString200::try_from(s("Smith Family Trust")).unwrap()
}

fn kind_of<T>(r: Result<T, ValidationError>) -> ErrorKind {
    match r {
        Ok(_) => panic!("expected an error"),
        Err(e) => e.kind(),
    }
}

fn message_of<T>(r: Result<T, ValidationError>) -> String {
    match r {
        Ok(_) => panic!("expected an error"),
        Err(e) => e.message().to_string(),
    }
}

#[test]
fn person_name_round_trip_keeps_text() {
    for text in ["Ann-Marie O'Neil", "Zoë", "a", "Jean Luc"] {
        let n = ConstrainedIndividualNameString100::try_from(s(text)).unwrap();
        assert_eq!(n.value(), text);
    }
    let hundred = "b".repeat(100);
    assert_eq!(ConstrainedIndividualNameString100::try_from(hundred.clone()).unwrap().value(), hundred);
}

#[test]
fn person_name_rules_apply_in_order() {
    let too_long_with_everything = format!("{}1!", "a".repeat(100));
    assert_eq!(
        ConstrainedIndividualNameString100::try_from(too_long_with_everything).unwrap_err(),
        "Constrained string 100 must not have more than 100 characters."
    );
    assert_eq!(
        ConstrainedIndividualNameString100::try_from(s("J0hn!")).unwrap_err(),
        "Constrained name string 100 must not have any numbers in it."
    );
    assert_eq!(
        ConstrainedIndividualNameString100::try_from(s("John+")).unwrap_err(),
        "Constrained name string 100 must not have any unusual special characters such as ! £ $ % ^ & * () {} \\ / _ + in it."
    );
    assert_eq!(
        ConstrainedIndividualNameString100::try_from(s("£")).unwrap_err(),
        "Constrained name string 100 must not have any unusual special characters such as ! £ $ % ^ & * () {} \\ / _ + in it."
    );
}

#[test]
fn person_name_counts_characters_not_bytes() {
    let hundred_non_ascii = "é".repeat(100);
    assert!(ConstrainedIndividualNameString100::try_from(hundred_non_ascii).is_ok());
    let hundred_and_one = "é".repeat(101);
    assert_eq!(
        ConstrainedIndividualNameString100::try_from(hundred_and_one).unwrap_err(),
        "Constrained string 100 must not have more than 100 characters."
    );
}

#[test]
fn person_name_refuses_non_ascii_digits() {
    assert_eq!(
        ConstrainedIndividualNameString100::try_from(s("Jo\u{663}n")).unwrap_err(),
        "Constrained name string 100 must not have any numbers in it."
    );
}

#[test]
fn long_punctuation_is_too_long() {
    assert_eq!(
        ConstrainedIndividualNameString100::try_from("!".repeat(101)).unwrap_err(),
        "Constrained string 100 must not have more than 100 characters."
    );
    assert_eq!(
        ConstrainedIndividualNameString100::try_from("9".repeat(150)).unwrap_err(),
        "Constrained string 100 must not have more than 100 characters."
    );
}

#[test]
fn email_shapes() {
    for good in ["john@example.com", "john.doe+tag@mail-host.co", "a_b%c@x1.io"] {
        assert_eq!(EmailAddress::try_from(s(good)).unwrap().value(), good);
    }
    for bad in ["john.example.com", "john@example.c", "john@example", "john@ex..com",
        "john@sub.example.com", "@example.com", "john@example.c0m", " john@example.com"] {
        assert_eq!(EmailAddress::try_from(s(bad)).unwrap_err(), "Invalid email address format.");
    }
}

#[test]
fn postcode_shapes() {
    for good in ["A1 1AA", "A11AA", "SW1A 1AA", "EC1A1BB", "M60 1NW", "CR2 6XH"] {
        assert_eq!(Postcode::new(s(good)).unwrap().value(), good);
    }
    for bad in ["Invalid Postcode", "AA 1AA", "a1 1aa", "A1  1AA", "A1 1A", "ABC1 1AA"] {
        assert_eq!(Postcode::new(s(bad)).unwrap_err(), "Invalid UK postcode format.");
    }
    assert_eq!(Postcode::new(s("")).unwrap_err(), "Postcode must not be empty.");
}

#[test]
fn client_id_needs_lower_case_uuid() {
    let id = "123e4567-e89b-12d3-a456-426614174000";
    assert_eq!(ClientId::try_from(s(id)).unwrap().value(), id);
    for bad in ["123E4567-E89B-12D3-A456-426614174000", "123e4567e89b12d3a456426614174000", ""] {
        assert_eq!(
            ClientId::try_from(s(bad)).unwrap_err(),
            "Client id does not include valid uuid string"
        );
    }
}

#[test]
fn address_fragment_rules() {
    assert_eq!(ConstrainedAddressString100::try_from(s("")).unwrap().value(), "");
    assert_eq!(ConstrainedAddressString100::try_from(s("Flat 2, 10 High St.")).unwrap().value(), "Flat 2, 10 High St.");
    assert_eq!(
        ConstrainedAddressString100::try_from(s("High_Street")).unwrap_err(),
        "Constrained address string 100 must not have any unusual special characters such as ! £ $ % ^ * {} \\ / _ in it."
    );
    assert_eq!(
        ConstrainedAddressString100::try_from("x".repeat(101)).unwrap_err(),
        "Constrained address string 100 must not have more than 100 characters."
    );
}

#[test]
fn postal_address_needs_line_one_city_and_postcode() {
    let r = PostalAddress::new(None, None, s(""), None, None, None, s("City"), None, s("A1 1AA"), None);
    assert_eq!(r.unwrap_err(), "Address line one, city and postcode must not be empty.");
    let r = PostalAddress::new(None, None, s("1 Road"), None, None, None, s(""), None, s("Nope"), None);
    assert_eq!(r.unwrap_err(), "Address line one, city and postcode must not be empty.");
}

#[test]
fn postal_address_checks_postcode_before_parts() {
    let r = PostalAddress::new(Some(s("Rose_Cottage")), None, s("1 Road"), None, None, None, s("City"), None, s("Nope"), None);
    assert_eq!(r.unwrap_err(), "Invalid UK postcode format.");
    let r = PostalAddress::new(Some(s("Rose_Cottage")), None, s("1 Road"), None, None, None, s("City"), None, s("A1 1AA"), None);
    assert_eq!(
        r.unwrap_err(),
        "Constrained address string 100 must not have any unusual special characters such as ! £ $ % ^ * {} \\ / _ in it."
    );
}

#[test]
fn postal_address_parses_house_number() {
    let a = PostalAddress::new(
        Some(s("Rose Cottage")), Some(s("-12")), s("High Street"), Some(s("")), Some(s("Old Town")),
        None, s("York"), Some(s("North Yorkshire")), s("YO1 7HH"), Some(s("UK")),
    )
    .unwrap();
    assert_eq!(a.house_number(), Some(&-12));
    assert_eq!(a.house_name().unwrap().value(), "Rose Cottage");
    assert_eq!(a.address_line_one().value(), "High Street");
    assert!(a.address_line_two().is_none());
    assert_eq!(a.address_line_three().unwrap().value(), "Old Town");
    assert!(a.address_line_four().is_none());
    assert_eq!(a.city().value(), "York");
    assert_eq!(a.county().unwrap().value(), "North Yorkshire");
    assert_eq!(a.postcode().value(), "YO1 7HH");
    assert_eq!(a.country().unwrap().value(), "UK");

    let r = PostalAddress::new(None, Some(s("12a")), s("High Street"), None, None, None, s("York"), None, s("YO1 7HH"), None);
    assert_eq!(r.unwrap_err(), "invalid digit found in string");
    let r = PostalAddress::new(None, Some(s("99999999999")), s("High Street"), None, None, None, s("York"), None, s("YO1 7HH"), None);
    assert_eq!(r.unwrap_err(), "number too large to fit in target type");
    let a = PostalAddress::new(None, Some(s("")), s("High Street"), None, None, None, s("York"), None, s("YO1 7HH"), None).unwrap();
    assert!(a.house_number().is_none());
}

#[test]
fn multiple_trustees_need_two() {
    let none = MultipleTrusteesElectronicContact::validate(trust_name(), vec![]);
    assert_eq!(kind_of(none), ErrorKind::EmptyInput);
    let one = MultipleTrusteesElectronicContact::validate(trust_name(), vec![trustee("Ann")]);
    assert_eq!(message_of(one), "There must be at least two trustees.");
    let two = MultipleTrusteesElectronicContact::validate(trust_name(), vec![trustee("Ann"), trustee("Bob")]).unwrap();
    assert_eq!(two.trustees().len(), 2);
    assert_eq!(two.trustees()[1].first_name().value(), "Bob");

    let post = |n: &str| TrusteePostContact::validate(s(n), address("1 Road", "Leeds", "LS1 1AA")).unwrap();
    let one = MultipleTrusteesPostContact::validate(s("Trust"), vec![post("Ann")]);
    assert_eq!(kind_of(one), ErrorKind::EmptyInput);
    let bad_name = MultipleTrusteesPostContact::validate(s(""), vec![post("Ann")]);
    assert_eq!(kind_of(bad_name), ErrorKind::InvalidName);
    let three = MultipleTrusteesPostContact::validate(s("Trust"), vec![post("Ann"), post("Bob"), post("Cy")]).unwrap();
    assert_eq!(three.trustees().len(), 3);
}

#[test]
fn multiple_directors_need_two() {
    let d = |n: &str| DirectorContact::validate(s(n), s("d@example.com")).unwrap();
    let none = MultipleDirectorsElectronicContact::validate(s("Acme 2 Ltd"), vec![]);
    assert_eq!(message_of(none), "There must be at least two directors.");
    let two = MultipleDirectorsElectronicContact::validate(s("Acme 2 Ltd"), vec![d("Ann"), d("Bob")]).unwrap();
    assert_eq!(two.directors()[0].email_address().value(), "d@example.com");

    let p = |n: &str| DirectorPostContact::validate(s(n), address("1 Road", "Leeds", "LS1 1AA")).unwrap();
    let one = MultipleDirectorsPostContact::validate(s("Acme Ltd"), vec![p("Ann")]);
    assert_eq!(kind_of(one), ErrorKind::EmptyInput);
    let two = MultipleDirectorsPostContact::validate(s("Acme Ltd"), vec![p("Ann"), p("Bob")]).unwrap();
    assert_eq!(two.directors()[1].postal_address().city().value(), "Leeds");
}

#[test]
fn single_roles_validate_each_field() {
    let t = PrimaryTrusteeElectronicContact::validate(s("Trust"), s("Ann"), s("ann@example.com")).unwrap();
    assert_eq!(t.primary_trustee_first_name().value(), "Ann");
    assert_eq!(t.primary_trustee_email_address().value(), "ann@example.com");
    assert_eq!(kind_of(PrimaryTrusteeElectronicContact::validate(s("Tr{ust"), s("Ann1"), s("x"))), ErrorKind::InvalidName);
    assert_eq!(kind_of(PrimaryTrusteeElectronicContact::validate(s("Trust"), s("Ann"), s("x"))), ErrorKind::InvalidEmail);

    let d = PrimaryDirectorElectronicContact::validate(s("Acme"), s("Bob"), s("bob@acme.co")).unwrap();
    assert_eq!(d.primary_director_first_name().value(), "Bob");
    assert_eq!(d.primary_director_email_address().value(), "bob@acme.co");

    let p = PrimaryTrusteePostContact::validate(s("Trust"), s("Ann"), address("1 Road", "Leeds", "LS1 1AA")).unwrap();
    assert_eq!(p.primary_trustee_first_name().value(), "Ann");
    assert_eq!(p.primary_trustee_postal_address().postcode().value(), "LS1 1AA");

    let p = PrimaryDirectorPostContact::validate(s("Bob"), address("1 Road", "Leeds", "LS1 1AA")).unwrap();
    assert_eq!(p.primary_director_first_name().value(), "Bob");
    assert_eq!(p.primary_director_postal_address().address_line_one().value(), "1 Road");
    assert_eq!(kind_of(PrimaryDirectorPostContact::validate(s(""), address("1 Road", "Leeds", "LS1 1AA"))), ErrorKind::InvalidName);

    let p = SingleIndividualPostContact::validate(s("Cy"), address("1 Road", "Leeds", "LS1 1AA")).unwrap();
    assert_eq!(p.contact_first_name().value(), "Cy");
    assert_eq!(kind_of(SingleIndividualPostContact::validate(s("C3"), address("1 Road", "Leeds", "LS1 1AA"))), ErrorKind::InvalidName);

    let t = TrusteePostContact::validate(s("Di"), address("1 Road", "Leeds", "LS1 1AA")).unwrap();
    assert_eq!(t.first_name().value(), "Di");
    assert_eq!(t.postal_address().city().value(), "Leeds");
}

#[test]
fn joint_electronic_contact_keeps_each_party() {
    let v = ValidatedJointIndividualsElectronicContact::validate(s("Ann"), s("Bob"), s("ann@example.com"), s("bob@example.com")).unwrap();
    assert_eq!(v.primary_contact_first_name().value(), "Ann");
    assert_eq!(v.individual_two_first_name().value(), "Bob");
    assert_eq!(v.primary_contact_email_address().value(), "ann@example.com");
    assert_eq!(v.individual_two_email_address().value(), "bob@example.com");
    let r = ValidatedJointIndividualsElectronicContact::validate(s("Ann"), s("B0b"), s("bad"), s("bad"));
    assert_eq!(kind_of(r), ErrorKind::InvalidName);
}

#[test]
fn joint_post_contact_maps_errors() {
    let r = ValidatedJointIndividualsPostContact::validate(
        s("Ann"), s("B0b"), s(""), s(""), s("1 Road"), s(""), s(""), s(""), s("Leeds"), s(""), s("LS1 1AA"), s(""),
    );
    assert_eq!(kind_of(r), ErrorKind::InvalidName);
    let r = ValidatedJointIndividualsPostContact::validate(
        s("Ann"), s("Bob"), s(""), s("x"), s("1 Road"), s(""), s(""), s(""), s("Leeds"), s(""), s("LS1 1AA"), s(""),
    );
    assert_eq!(kind_of(r), ErrorKind::InvalidInput);
    let v = ValidatedJointIndividualsPostContact::validate(
        s("Ann"), s("Bob"), s(""), s("7"), s("1 Road"), s(""), s(""), s(""), s("Leeds"), s(""), s("LS1 1AA"), s(""),
    )
    .unwrap();
    assert_eq!(v.postal_address().house_number(), Some(&7));
    assert_eq!(v.primary_contact_first_name().value(), "Ann");
    assert_eq!(v.individual_two_first_name().value(), "Bob");
}

#[test]
fn single_electronic_contact() {
    let v = ValidatedSingleIndividualElectronicContact::validate(s("John"), s("john@example.com")).unwrap();
    assert_eq!(v.first_name().value(), "John");
    assert_eq!(v.email_address().value(), "john@example.com");
}

#[test]
fn scenario_single_individual_electronic_succeeds() {
    let info = ClientContactInformation::SingleIndividualElectronicContact(SingleIndividualElectronicContact {
        first_name: s("John"),
        email_address: s("john@example.com"),
    });
    let v = ValidatedAnnualReviewInformation::validate(envelope("01/06/2025", info)).unwrap();
    let date = v.annual_review_due_date();
    assert_eq!((date.year(), date.month(), date.day()), (2025, 6, 1));
    match v.client_contact_information() {
        ValidatedClientContactInformation::ValidatedSingleIndividualElectronicContact(c) => {
            assert_eq!(c.first_name().value(), "John");
            assert_eq!(c.email_address().value(), "john@example.com");
        }
        _ => panic!("wrong contact shape"),
    }
}

#[test]
fn scenario_joint_with_invalid_email_fails() {
    let info = ClientContactInformation::JointIndividualsElectronicContact(JointIndividualsElectronicContact {
        primary_contact_first_name: s("John"),
        individual_two_first_name: s("Jane"),
        primary_contact_email_address: s("john@example.com"),
        individual_two_email_address: s("invalid-email"),
    });
    let r = ValidatedAnnualReviewInformation::validate(envelope("01/06/2025", info));
    assert_eq!(kind_of(r), ErrorKind::InvalidEmail);
}

#[test]
fn scenario_trustees_without_parties_fail() {
    let info = ClientContactInformation::MultipleTrusteesElectronicContact(UnvalidatedMultipleElectronicContact {
        entity_name: s("Smith Family Trust"),
        parties: vec![],
    });
    let r = ValidatedAnnualReviewInformation::validate(envelope("01/06/2025", info));
    match r {
        Err(ValidationError::EmptyInput(m)) => assert_eq!(m, "There must be at least two trustees."),
        _ => panic!("expected the cardinality error"),
    }
}

#[test]
fn scenario_address_without_line_one_fails() {
    let r = PostalAddress::new(None, None, s(""), None, None, None, s("City"), None, s("A1 1AA"), None);
    assert_eq!(r.unwrap_err(), "Address line one, city and postcode must not be empty.");
    let info = ClientContactInformation::SingleIndividualPostContact(UnvalidatedPostParty {
        first_name: s("John"),
        postal_address: raw_address("", "City", "A1 1AA"),
    });
    let r = ValidatedAnnualReviewInformation::validate(envelope("01/06/2025", info));
    assert_eq!(message_of(r), "Address line one, city and postcode must not be empty.");
}

#[test]
fn due_date_is_checked_first() {
    let info = ClientContactInformation::SingleIndividualElectronicContact(SingleIndividualElectronicContact {
        first_name: s("J0hn"),
        email_address: s("bad"),
    });
    let r = ValidatedAnnualReviewInformation::validate(envelope("2025-06-01", info));
    assert_eq!(kind_of(r), ErrorKind::InvalidDate);
}

#[test]
fn due_date_reads_day_month_year() {
    let d = ValidatedAnnualReviewDueDate::validate(s("29/02/2024"), s("")).unwrap();
    assert_eq!((d.year(), d.month(), d.day()), (2024, 2, 29));
    let r = ValidatedAnnualReviewDueDate::validate(s("29/02/2025"), s(""));
    assert_eq!(kind_of(r), ErrorKind::InvalidDate);
    let r = ValidatedAnnualReviewDueDate::validate(s("tomorrow"), s(""));
    assert_eq!(message_of(r), "input contains invalid characters");
}

#[test]
fn due_date_from_parsed_outcome() {
    let d = ValidatedAnnualReviewDueDate::from_parsed(Ok((2000, 2, 29))).unwrap();
    assert_eq!((d.year(), d.month(), d.day()), (2000, 2, 29));
    assert_eq!(message_of(ValidatedAnnualReviewDueDate::from_parsed(Ok((1900, 2, 29)))), "input is out of range");
    assert_eq!(message_of(ValidatedAnnualReviewDueDate::from_parsed(Ok((2025, 13, 1)))), "input is out of range");
    assert_eq!(message_of(ValidatedAnnualReviewDueDate::from_parsed(Err(s("premature end of input")))), "premature end of input");
}

#[test]
fn every_contact_shape_dispatches() {
    let electronic = || UnvalidatedMultipleElectronicContact {
        entity_name: s("Acme Ltd"),
        parties: vec![party("Ann", "ann@acme.co"), party("Bob", "bob@acme.co")],
    };
    let post = || UnvalidatedMultiplePostContact {
        entity_name: s("Acme Ltd"),
        parties: vec![
            UnvalidatedPostParty { first_name: s("Ann"), postal_address: raw_address("1 Road", "Leeds", "LS1 1AA") },
            UnvalidatedPostParty { first_name: s("Bob"), postal_address: raw_address("2 Road", "Leeds", "LS1 1AB") },
        ],
    };
    let entity = || UnvalidatedEntityElectronicContact { entity_name: s("Acme Ltd"), first_name: s("Ann"), email_address: s("ann@acme.co") };
    let shapes = vec![
        ClientContactInformation::JointIndividualsPostContact(JointIndividualsPostContact {
            primary_contact_first_name: s("Ann"), individual_two_first_name: s("Bob"), house_name: s(""),
            house_number: s("3"), address_line_one: s("1 Road"), address_line_two: s(""), address_line_three: s(""),
            address_line_four: s(""), city: s("Leeds"), county: s(""), postcode: s("LS1 1AA"), country: s(""),
        }),
        ClientContactInformation::MultipleTrusteesElectronicContact(electronic()),
        ClientContactInformation::PrimaryTrusteeElectronicContact(entity()),
        ClientContactInformation::MultipleTrusteesPostContact(post()),
        ClientContactInformation::PrimaryTrusteePostContact(UnvalidatedEntityPostContact {
            entity_name: s("Trust"), first_name: s("Ann"), postal_address: raw_address("1 Road", "Leeds", "LS1 1AA"),
        }),
        ClientContactInformation::MultipleDirectorsElectronicContact(electronic()),
        ClientContactInformation::PrimaryDirectorElectronicContact(entity()),
        ClientContactInformation::MultipleDirectorsPostContact(post()),
        ClientContactInformation::PrimaryDirectorPostContact(UnvalidatedPostParty {
            first_name: s("Ann"), postal_address: raw_address("1 Road", "Leeds", "LS1 1AA"),
        }),
    ];
    let mut tags = Vec::new();
    for info in shapes {
        let v = ValidatedClientContactInformation::validate(info).unwrap();
        tags.push(match v {
            ValidatedClientContactInformation::ValidatedJointIndividualsPostContact(_) => 1,
            ValidatedClientContactInformation::MultipleTrusteesElectronicContact(c) => { assert_eq!(c.trustees().len(), 2); 2 }
            ValidatedClientContactInformation::PrimaryTrusteeElectronicContact(_) => 3,
            ValidatedClientContactInformation::MultipleTrusteesPostContact(c) => { assert_eq!(c.trustees()[1].postal_address().postcode().value(), "LS1 1AB"); 4 }
            ValidatedClientContactInformation::PrimaryTrusteePostContact(_) => 5,
            ValidatedClientContactInformation::MultipleDirectorsElectronicContact(c) => { assert_eq!(c.directors()[0].first_name().value(), "Ann"); 6 }
            ValidatedClientContactInformation::PrimaryDirectorElectronicContact(_) => 7,
            ValidatedClientContactInformation::MultipleDirectorsPostContact(c) => { assert_eq!(c.directors().len(), 2); 8 }
            ValidatedClientContactInformation::PrimaryDirectorPostContact(_) => 9,
            _ => 0,
        });
    }
    assert_eq!(tags, vec![1, 2, 3, 4, 5, 6, 7, 8, 9]);
}

#[test]
fn multi_party_failures_come_in_order() {
    let raw = UnvalidatedMultipleElectronicContact {
        entity_name: s("Acme Ltd"),
        parties: vec![party("Ann", "ann@acme.co"), party("B0b", "bad"), party("Cy", "bad")],
    };
    let r = ValidatedClientContactInformation::validate_multiple_directors_electronic_contact(raw);
    assert_eq!(kind_of(r), ErrorKind::InvalidName);
    let raw = UnvalidatedMultipleElectronicContact { entity_name: s("Acme!"), parties: vec![party("B0b", "bad")] };
    let r = ValidatedClientContactInformation::validate_multiple_trustees_electronic_contact(raw);
    assert_eq!(kind_of(r), ErrorKind::InvalidName);
    let raw = UnvalidatedMultipleElectronicContact { entity_name: s("Acme"), parties: vec![party("Ann", "ann@acme.co")] };
    let r = ValidatedClientContactInformation::validate_multiple_trustees_electronic_contact(raw);
    assert_eq!(kind_of(r), ErrorKind::EmptyInput);
    let raw = UnvalidatedMultiplePostContact {
        entity_name: s("Acme"),
        parties: vec![UnvalidatedPostParty { first_name: s("Ann"), postal_address: raw_address("1 Road", "Leeds", "bad") }],
    };
    let r = ValidatedClientContactInformation::validate_multiple_trustees_post_contact(raw);
    assert_eq!(message_of(r), "Invalid UK postcode format.");
}

#[test]
fn error_display_and_kinds() {
    let cases = [
        (ErrorKind::InvalidName, "Invalid name: x"),
        (ErrorKind::InvalidEmail, "Invalid email: x"),
        (ErrorKind::InvalidAddress, "Invalid address: x"),
        (ErrorKind::InvalidDate, "Invalid date: x"),
        (ErrorKind::EmptyInput, "Empty Input: x"),
        (ErrorKind::InvalidInput, "Invalid Input: x"),
    ];
    for (kind, shown) in cases {
        let e = ValidationError::new(kind, s("x"));
        assert_eq!(e.kind(), kind);
        assert_eq!(e.message(), "x");
        assert_eq!(e.to_display_string(), shown);
    }
}
